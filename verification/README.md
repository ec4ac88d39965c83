# feather-md

A lightweight Markdown viewer. The verified library under `src/` holds its logic:

- `mime`: the media type of a served file, chosen by its extension;
- `assets`: the embedded front-end files and their lookup;
- `protocol`: how requests on the viewer's own URL scheme are answered;
- `text`: decoding a document's bytes (UTF-8, else GBK);
- `script`: the JavaScript calls made in the web view, with JSON-quoted text;
- `viewer`: what happens when the front end is ready, the document changes or another is opened;
- `ipc`: what a message from the front end asks for;
- `watch`: deciding from file-system events that the document changed, once a burst of changes has settled;
- `association`: the registry operations that make the viewer the handler of `.md` files, the association kept for restoring, undoing it, and registering on the first run only;
- `shell`: the programs started to reveal a document or open it in an editor.

`app/` is the program around it: the window and web view, the event loop, file and
registry I/O, the configuration file and command-line parsing.
