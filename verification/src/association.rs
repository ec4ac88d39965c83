//! Registering the viewer as the handler of `.md` files in the per-user
//! registry, as a list of registry operations to carry out, keeping the
//! association found before so that it can be restored, and undoing it.

use vstd::prelude::*;
use crate::viewer::opt_text;

verus! {

/// The registry key that a path is relative to.
#[derive(Debug, Clone, Copy, PartialEq, Eq, Structural)]
pub enum RegistryRoot {
    /// `HKEY_CURRENT_USER`.
    CurrentUser,
    /// `HKEY_CURRENT_USER\Software\Classes`.
    Classes,
}

/// What a registry operation does.
#[derive(Debug, Clone, Copy, PartialEq, Eq, Structural)]
pub enum RegistryOpKind {
    /// Create the key (and the keys above it) if missing.
    CreateKey,
    /// Set the named string value of the existing key.
    SetValue,
    /// Delete the named value of the existing key.
    DeleteValue,
    /// Delete the key with everything below it.
    DeleteTree,
}

/// One registry operation. `name` only matters for `SetValue` and
/// `DeleteValue`, `data` only for `SetValue`; the empty name is the key's
/// default value.
pub struct RegistryOp {
    pub kind: RegistryOpKind,
    pub root: RegistryRoot,
    pub path: String,
    pub name: String,
    pub data: String,
}

/// A registry operation as plain values.
pub type OpView = (RegistryOpKind, RegistryRoot, Seq<char>, Seq<char>, Seq<char>);

impl View for RegistryOp {
    type V = OpView;

    open spec fn view(&self) -> OpView {
        (self.kind, self.root, self.path@, self.name@, self.data@)
    }
}

/// A step of registration: the operation, and the text put before the system's
/// reason when it fails (`None`: the reason alone).
pub struct RegistryStep {
    pub op: RegistryOp,
    pub error_prefix: Option<String>,
}

/// A step as plain values.
pub open spec fn step_view(s: RegistryStep) -> (OpView, Option<Seq<char>>) {
    (s.op@, opt_text(s.error_prefix))
}

/// The programmatic identifier under which the viewer registers itself.
pub open spec fn prog_id() -> Seq<char> {
    "FeatherMD.md"@
}

/// The key under which the configuration keeps the association found before
/// registration.
pub const BACKUP_KEY: &'static str = ".md";

/// The message when `Software\Classes` cannot be opened.
pub open spec fn classes_error(reason: Seq<char>) -> Seq<char> {
    "Cannot open Software\\Classes: "@ + reason
}

pub open spec fn create(root: RegistryRoot, path: Seq<char>) -> OpView {
    (RegistryOpKind::CreateKey, root, path, ""@, ""@)
}

pub open spec fn set(root: RegistryRoot, path: Seq<char>, name: Seq<char>, data: Seq<char>) -> OpView {
    (RegistryOpKind::SetValue, root, path, name, data)
}

pub open spec fn delete_value(root: RegistryRoot, path: Seq<char>, name: Seq<char>) -> OpView {
    (RegistryOpKind::DeleteValue, root, path, name, ""@)
}

pub open spec fn delete_tree(root: RegistryRoot, path: Seq<char>) -> OpView {
    (RegistryOpKind::DeleteTree, root, path, ""@, ""@)
}

/// The steps that make the viewer, at `exe`, the handler of `.md` files, in
/// order, each with the text put before the reason when it fails.
pub open spec fn registration_plan(exe: Seq<char>) -> Seq<(OpView, Option<Seq<char>>)> {
    let icon = prog_id() + "\\DefaultIcon"@;
    let shell = prog_id() + "\\shell"@;
    let open = prog_id() + "\\shell\\open"@;
    let command = prog_id() + "\\shell\\open\\command"@;
    seq![
        (create(RegistryRoot::Classes, ".md"@), Some("Cannot create .md key: "@)),
        (set(RegistryRoot::Classes, ".md"@, ""@, prog_id()), Some("Cannot set .md default: "@)),
        (create(RegistryRoot::Classes, prog_id()), Some("Cannot create FeatherMD.md key: "@)),
        (set(RegistryRoot::Classes, prog_id(), ""@, "Markdown File"@), None),
        (create(RegistryRoot::Classes, icon), None),
        (set(RegistryRoot::Classes, icon, ""@, exe + ",0"@), None),
        (create(RegistryRoot::Classes, shell), None),
        (create(RegistryRoot::Classes, open), None),
        (create(RegistryRoot::Classes, command), None),
        (set(RegistryRoot::Classes, command, ""@, "\""@ + exe + "\" \"%1\""@), None),
    ]
}

/// The association to keep for restoring, given `existing`, the default value
/// of `.md` found before registration: none when there is none or it is
/// already the viewer's.
pub open spec fn backup_value(existing: Option<Seq<char>>) -> Option<Seq<char>> {
    match existing {
        Some(v) => if v != prog_id() {
            Some(v)
        } else {
            None
        },
        None => None,
    }
}

/// The operations that undo registration, given the kept association: write
/// it back as the default of `.md` if there is one, else delete that default;
/// then delete the viewer's identifier.
pub open spec fn unregistration_plan(backup: Option<Seq<char>>) -> Seq<OpView> {
    let restore = match backup {
        Some(v) => set(RegistryRoot::Classes, ".md"@, ""@, v),
        None => delete_value(RegistryRoot::Classes, ".md"@, ""@),
    };
    seq![restore, delete_tree(RegistryRoot::Classes, prog_id())]
}

/// Whether the default value `v` of `.md` marks the viewer as the handler.
pub open spec fn marks_registered(v: Option<Seq<char>>) -> bool {
    v == Some(prog_id())
}

/// Whether `op` sets or deletes the value `(root, path, name)`.
pub open spec fn touches_slot(op: OpView, root: RegistryRoot, path: Seq<char>, name: Seq<char>) -> bool {
    (op.0 == RegistryOpKind::SetValue || op.0 == RegistryOpKind::DeleteValue) && op.1 == root && op.2 == path
        && op.3 == name
}

/// The value `(root, path, name)` holds after `ops` are carried out, when it
/// held `before`: the data of the last `SetValue` of it, nothing after a last
/// `DeleteValue` of it, `before` when no operation sets or deletes it.
pub open spec fn slot_after(
    ops: Seq<OpView>,
    root: RegistryRoot,
    path: Seq<char>,
    name: Seq<char>,
    before: Option<Seq<char>>,
) -> Option<Seq<char>>
    decreases ops.len(),
{
    if ops.len() == 0 {
        before
    } else if touches_slot(ops.last(), root, path, name) {
        if ops.last().0 == RegistryOpKind::SetValue {
            Some(ops.last().4)
        } else {
            None
        }
    } else {
        slot_after(ops.drop_last(), root, path, name, before)
    }
}

/// The outcome of the registration steps `steps` from the outcomes `results` of
/// those carried out, in order (`None`: success; `Some(reason)`: failure): the
/// first failure's message, else success.
pub open spec fn registration_outcome(
    steps: Seq<(OpView, Option<Seq<char>>)>,
    results: Seq<Option<Seq<char>>>,
) -> Result<(), Seq<char>>
    decreases results.len(),
{
    if results.len() == 0 || steps.len() == 0 {
        Ok(())
    } else {
        match results[0] {
            Some(reason) => Err(
                match steps[0].1 {
                    Some(p) => p + reason,
                    None => reason,
                },
            ),
            None => registration_outcome(steps.drop_first(), results.drop_first()),
        }
    }
}

fn op(kind: RegistryOpKind, root: RegistryRoot, path: String, name: &str, data: String) -> (r: RegistryOp)
    ensures
        r@ == (kind, root, path@, name@, data@),
{
    RegistryOp { kind, root, path, name: String::from_str(name), data }
}

fn step(o: RegistryOp, prefix: Option<&str>) -> (r: RegistryStep)
    ensures
        step_view(r) == (o@, match prefix {
            Some(p) => Some(p@),
            None => None,
        }),
{
    let error_prefix = match prefix {
        Some(p) => Some(String::from_str(p)),
        None => None,
    };
    RegistryStep { op: o, error_prefix }
}

/// The message when `Software\Classes` cannot be opened, from the system's reason.
pub fn classes_open_error(reason: &str) -> (r: String)
    ensures
        r@ == classes_error(reason@),
{
    String::from_str("Cannot open Software\\Classes: ").concat(reason)
}

/// The message when `step` fails for `reason`.
pub fn step_error(step: &RegistryStep, reason: &str) -> (r: String)
    ensures
        r@ == match opt_text(step.error_prefix) {
            Some(p) => p + reason@,
            None => reason@,
        },
{
    match &step.error_prefix {
        Some(p) => p.clone().concat(reason),
        None => String::from_str(reason),
    }
}

/// The steps that make the viewer, at `exe_path`, the handler of `.md` files.
pub fn registration_steps(exe_path: &str) -> (r: Vec<RegistryStep>)
    ensures
        r@.map_values(|s: RegistryStep| step_view(s)) == registration_plan(exe_path@),
{
    let classes = RegistryRoot::Classes;
    let id = "FeatherMD.md";
    let icon = String::from_str(id).concat("\\DefaultIcon");
    let shell = String::from_str(id).concat("\\shell");
    let open = String::from_str(id).concat("\\shell\\open");
    let command = String::from_str(id).concat("\\shell\\open\\command");
    let mut v: Vec<RegistryStep> = Vec::new();
    v.push(step(op(RegistryOpKind::CreateKey, classes, String::from_str(".md"), "", String::from_str("")), Some("Cannot create .md key: ")));
    v.push(step(op(RegistryOpKind::SetValue, classes, String::from_str(".md"), "", String::from_str(id)), Some("Cannot set .md default: ")));
    v.push(step(op(RegistryOpKind::CreateKey, classes, String::from_str(id), "", String::from_str("")), Some("Cannot create FeatherMD.md key: ")));
    v.push(step(op(RegistryOpKind::SetValue, classes, String::from_str(id), "", String::from_str("Markdown File")), None));
    v.push(step(op(RegistryOpKind::CreateKey, classes, icon.clone(), "", String::from_str("")), None));
    v.push(step(op(RegistryOpKind::SetValue, classes, icon, "", String::from_str(exe_path).concat(",0")), None));
    v.push(step(op(RegistryOpKind::CreateKey, classes, shell, "", String::from_str("")), None));
    v.push(step(op(RegistryOpKind::CreateKey, classes, open, "", String::from_str("")), None));
    v.push(step(op(RegistryOpKind::CreateKey, classes, command.clone(), "", String::from_str("")), None));
    v.push(step(op(RegistryOpKind::SetValue, classes, command, "", String::from_str("\"").concat(exe_path).concat("\" \"%1\"")), None));
    assert(v@.map_values(|s: RegistryStep| step_view(s)) =~= registration_plan(exe_path@));
    v
}

/// The association to keep for restoring, given `existing`, the default value
/// of `.md` found before registration: none when there is none or it is
/// already the viewer's.
pub fn backup_entry(existing: Option<String>) -> (r: Option<String>)
    ensures
        opt_text(r) == backup_value(opt_text(existing)),
{
    match existing {
        Some(value) => {
            if value == String::from_str("FeatherMD.md") {
                None
            } else {
                Some(value)
            }
        },
        None => None,
    }
}

/// The operations that undo registration, given `backup`, the association kept
/// when registering (if any).
pub fn unregistration_ops(backup: Option<String>) -> (r: Vec<RegistryOp>)
    ensures
        r@.map_values(|o: RegistryOp| o@) == unregistration_plan(opt_text(backup)),
{
    let mut v: Vec<RegistryOp> = Vec::new();
    match backup {
        Some(value) => {
            v.push(op(RegistryOpKind::SetValue, RegistryRoot::Classes, String::from_str(".md"), "", value));
        },
        None => {
            v.push(op(RegistryOpKind::DeleteValue, RegistryRoot::Classes, String::from_str(".md"), "", String::from_str("")));
        },
    }
    v.push(op(RegistryOpKind::DeleteTree, RegistryRoot::Classes, String::from_str("FeatherMD.md"), "", String::from_str("")));
    assert(v@.map_values(|o: RegistryOp| o@) =~= unregistration_plan(opt_text(backup)));
    v
}

/// The outcome of registration from `results`, the outcomes of the steps of
/// `steps` carried out in order (`None`: success; `Some(reason)`: failure): the
/// message of the first failure, else success. The steps after a failure are
/// not carried out.
pub fn registration_result(steps: &Vec<RegistryStep>, results: &Vec<Option<String>>) -> (r: Result<(), String>)
    ensures
        match registration_outcome(
            steps@.map_values(|s: RegistryStep| step_view(s)),
            results@.map_values(|o: Option<String>| opt_text(o)),
        ) {
            Ok(()) => r is Ok,
            Err(m) => r is Err && r->Err_0@ == m,
        },
{
    let ghost sv = steps@.map_values(|s: RegistryStep| step_view(s));
    let ghost rv = results@.map_values(|o: Option<String>| opt_text(o));
    let mut i: usize = 0;
    assert(sv.skip(0) =~= sv);
    assert(rv.skip(0) =~= rv);
    while i < results.len() && i < steps.len()
        invariant
            i <= results.len(),
            i <= steps.len(),
            sv == steps@.map_values(|s: RegistryStep| step_view(s)),
            rv == results@.map_values(|o: Option<String>| opt_text(o)),
            registration_outcome(sv, rv) == registration_outcome(sv.skip(i as int), rv.skip(i as int)),
        decreases results.len() - i,
    {
        assert(sv.skip(i as int).drop_first() =~= sv.skip(i + 1));
        assert(rv.skip(i as int).drop_first() =~= rv.skip(i + 1));
        match &results[i] {
            Some(reason) => {
                return Err(step_error(&steps[i], reason.as_str()));
            },
            None => {},
        }
        i = i + 1;
    }
    Ok(())
}

/// Whether the viewer registers itself at start-up: only on the first run
/// (`handled_before` tells that the viewer has run, registered or unregistered
/// before, so that an unregistration stays in effect), and only when `default`,
/// the default value of `.md`, does not already mark it.
pub fn needs_registration(default: Option<String>, handled_before: bool) -> (r: bool)
    ensures
        r == (!handled_before && !marks_registered(opt_text(default))),
{
    !handled_before && !is_registered_value(default)
}

/// Whether `default`, the default value of `.md`, marks the viewer as the
/// handler of `.md` files.
pub fn is_registered_value(default: Option<String>) -> (r: bool)
    ensures
        r == marks_registered(opt_text(default)),
{
    match default {
        Some(v) => v == String::from_str("FeatherMD.md"),
        None => false,
    }
}

/// The operations of the registration plan, without their error texts.
pub open spec fn plan_ops(plan: Seq<(OpView, Option<Seq<char>>)>) -> Seq<OpView> {
    plan.map_values(|s: (OpView, Option<Seq<char>>)| s.0)
}

/// Dropping a last operation that neither sets nor deletes `(root, path, name)`
/// leaves the value there unchanged.
proof fn lemma_slot_without_last(
    ops: Seq<OpView>,
    k: int,
    root: RegistryRoot,
    path: Seq<char>,
    name: Seq<char>,
    before: Option<Seq<char>>,
)
    requires
        0 < k <= ops.len(),
        !touches_slot(ops[k - 1], root, path, name),
    ensures
        slot_after(ops.take(k), root, path, name, before) == slot_after(ops.take(k - 1), root, path, name, before),
{
    assert(ops.take(k).drop_last() =~= ops.take(k - 1));
}

/// Registration is recognised: once every step of the registration plan for any
/// executable path has been carried out, whatever `.md` held before, its
/// default value marks the viewer as registered.
pub proof fn lemma_registration_is_recognised(exe: Seq<char>, before: Option<Seq<char>>)
    ensures
        marks_registered(slot_after(plan_ops(registration_plan(exe)), RegistryRoot::Classes, ".md"@, ""@, before)),
{
    let ops = plan_ops(registration_plan(exe));
    let c = RegistryRoot::Classes;
    reveal_strlit(".md");
    reveal_strlit("FeatherMD.md");
    reveal_strlit("\\DefaultIcon");
    reveal_strlit("\\shell\\open\\command");
    assert(ops.len() == 10);
    assert(ops.take(10) =~= ops);
    assert(ops[9].2.len() != ".md"@.len());
    lemma_slot_without_last(ops, 10, c, ".md"@, ""@, before);
    lemma_slot_without_last(ops, 9, c, ".md"@, ""@, before);
    lemma_slot_without_last(ops, 8, c, ".md"@, ""@, before);
    lemma_slot_without_last(ops, 7, c, ".md"@, ""@, before);
    assert(ops[5].2.len() != ".md"@.len());
    lemma_slot_without_last(ops, 6, c, ".md"@, ""@, before);
    lemma_slot_without_last(ops, 5, c, ".md"@, ""@, before);
    assert(ops[3].2.len() != ".md"@.len());
    lemma_slot_without_last(ops, 4, c, ".md"@, ""@, before);
    lemma_slot_without_last(ops, 3, c, ".md"@, ""@, before);
    assert(ops.take(2).last() == ops[1]);
}

/// Registering again keeps the kept association: after a registration the
/// default value of `.md` is the viewer's own, so a second registration keeps
/// nothing new and the association kept by the first one stays.
pub proof fn lemma_registering_twice_keeps_backup(exe: Seq<char>, before: Option<Seq<char>>)
    ensures
        backup_value(slot_after(plan_ops(registration_plan(exe)), RegistryRoot::Classes, ".md"@, ""@, before))
            is None,
{
    lemma_registration_is_recognised(exe, before);
}

/// Unregistering undoes registering: when `.md` was associated with something
/// else before, the association kept while registering is written back as the
/// default value of `.md`.
pub proof fn lemma_unregistration_restores(previous: Seq<char>, before: Option<Seq<char>>)
    requires
        previous != prog_id(),
    ensures
        backup_value(Some(previous)) == Some(previous),
        slot_after(unregistration_plan(backup_value(Some(previous))), RegistryRoot::Classes, ".md"@, ""@, before)
            == Some(previous),
{
    let ops = unregistration_plan(backup_value(Some(previous)));
    let c = RegistryRoot::Classes;
    reveal_strlit(".md");
    reveal_strlit("FeatherMD.md");
    assert(ops.take(2) =~= ops);
    assert(ops[1].2.len() != ".md"@.len());
    lemma_slot_without_last(ops, 2, c, ".md"@, ""@, before);
    assert(ops.take(1).last() == ops[0]);
}

/// Unregistering cancels the association: whatever registration kept (from any
/// value `existing` found before it), after unregistering the default value of
/// `.md` no longer marks the viewer as registered.
pub proof fn lemma_unregistration_cancels(existing: Option<Seq<char>>, before: Option<Seq<char>>)
    ensures
        !marks_registered(
            slot_after(unregistration_plan(backup_value(existing)), RegistryRoot::Classes, ".md"@, ""@, before),
        ),
{
    let ops = unregistration_plan(backup_value(existing));
    let c = RegistryRoot::Classes;
    reveal_strlit(".md");
    reveal_strlit("FeatherMD.md");
    assert(ops.take(2) =~= ops);
    assert(ops[1].2.len() != ".md"@.len());
    lemma_slot_without_last(ops, 2, c, ".md"@, ""@, before);
    assert(ops.take(1).last() == ops[0]);
}

/// Registration opens documents with the viewer: once every step of the
/// registration plan for any executable path `exe` has been carried out,
/// whatever the values held before, the open command of `FeatherMD.md` is
/// `"exe" "%1"` (the document passed as `%1`) and its icon is `exe,0`.
pub proof fn lemma_registration_opens_documents(
    exe: Seq<char>,
    command_before: Option<Seq<char>>,
    icon_before: Option<Seq<char>>,
)
    ensures
        slot_after(
            plan_ops(registration_plan(exe)),
            RegistryRoot::Classes,
            "FeatherMD.md\\shell\\open\\command"@,
            ""@,
            command_before,
        ) == Some("\""@ + exe + "\" \"%1\""@),
        slot_after(
            plan_ops(registration_plan(exe)),
            RegistryRoot::Classes,
            "FeatherMD.md\\DefaultIcon"@,
            ""@,
            icon_before,
        ) == Some(exe + ",0"@),
{
    let ops = plan_ops(registration_plan(exe));
    let c = RegistryRoot::Classes;
    reveal_strlit("FeatherMD.md");
    reveal_strlit("\\DefaultIcon");
    reveal_strlit("\\shell");
    reveal_strlit("\\shell\\open");
    reveal_strlit("\\shell\\open\\command");
    reveal_strlit("FeatherMD.md\\shell\\open\\command");
    reveal_strlit("FeatherMD.md\\DefaultIcon");
    reveal_strlit("");
    let command = "FeatherMD.md\\shell\\open\\command"@;
    let icon = "FeatherMD.md\\DefaultIcon"@;
    assert(ops.len() == 10);
    assert(ops.take(10) =~= ops);
    assert(prog_id() + "\\shell\\open\\command"@ =~= command);
    assert(prog_id() + "\\DefaultIcon"@ =~= icon);
    assert(touches_slot(ops[9], c, command, ""@));
    assert(ops.last() == ops[9]);
    assert(ops[9].2.len() != icon.len());
    lemma_slot_without_last(ops, 10, c, icon, ""@, icon_before);
    lemma_slot_without_last(ops, 9, c, icon, ""@, icon_before);
    lemma_slot_without_last(ops, 8, c, icon, ""@, icon_before);
    lemma_slot_without_last(ops, 7, c, icon, ""@, icon_before);
    assert(touches_slot(ops[5], c, icon, ""@));
    assert(ops.take(6).last() == ops[5]);
}

} // verus!
