use vstd::prelude::*;

verus! {

/// What a settings reset does with one entry of an application directory.
#[derive(Clone, Copy, PartialEq, Eq, Structural, Debug)]
pub enum ResetAction {
    Keep,
    RemoveDir,
    RemoveFile,
}

/// Directories a reset leaves alone: the web view's, which is in use, and,
/// unless the wallet is reset too, the per-network data that holds it.
pub open spec fn kept_dir(name: Seq<char>, reset_wallet: bool) -> bool {
    name == "EBWebView"@ || (!reset_wallet && (name == "esmeralda"@ || name == "nextnet"@))
}

pub open spec fn reset_action_spec(name: Seq<char>, is_dir: bool, reset_wallet: bool) -> ResetAction {
    if !is_dir {
        ResetAction::RemoveFile
    } else if kept_dir(name, reset_wallet) {
        ResetAction::Keep
    } else {
        ResetAction::RemoveDir
    }
}

/// Whether two texts are equal, character by character.
pub fn same_text(a: &str, b: &str) -> (r: bool)
    ensures
        r == (a@ == b@),
{
    let n = a.unicode_len();
    if n != b.unicode_len() {
        return false;
    }
    let mut i: usize = 0;
    while i < n
        invariant
            n == a@.len(),
            n == b@.len(),
            0 <= i <= n,
            forall|k: int| 0 <= k < i ==> a@[k] == b@[k],
        decreases n - i,
    {
        if a.get_char(i) != b.get_char(i) {
            return false;
        }
        i = i + 1;
    }
    assert(a@ =~= b@);
    true
}

/// What a reset does with the entry `name` of an application directory:
/// files go, directories go unless kept.
pub fn reset_action(name: &str, is_dir: bool, reset_wallet: bool) -> (r: ResetAction)
    ensures
        r == reset_action_spec(name@, is_dir, reset_wallet),
{
    if !is_dir {
        return ResetAction::RemoveFile;
    }
    let kept = same_text(name, "EBWebView")
        || (!reset_wallet && (same_text(name, "esmeralda") || same_text(name, "nextnet")));
    if kept {
        ResetAction::Keep
    } else {
        ResetAction::RemoveDir
    }
}

/// The names of the directories among the first `n` that are unknown, in order.
pub open spec fn missing_upto(dirs: Seq<Option<String>>, names: Seq<&str>, n: nat) -> Seq<Seq<char>>
    decreases n,
{
    if n == 0 {
        Seq::empty()
    } else {
        let before = missing_upto(dirs, names, (n - 1) as nat);
        if dirs[n - 1] is None {
            before.push(names[n - 1]@)
        } else {
            before
        }
    }
}

/// A reset needs every application directory: the names of the unknown
/// ones, in the order given; empty where all are known.
pub fn missing_dirs(dirs: &Vec<Option<String>>, names: &Vec<&str>) -> (r: Vec<String>)
    requires
        dirs@.len() == names@.len(),
    ensures
        r@.map_values(|s: String| s@) == missing_upto(dirs@, names@, dirs@.len()),
{
    let mut out: Vec<String> = Vec::new();
    let mut i: usize = 0;
    while i < dirs.len()
        invariant
            dirs@.len() == names@.len(),
            0 <= i <= dirs@.len(),
            out@.map_values(|s: String| s@) == missing_upto(dirs@, names@, i as nat),
        decreases dirs@.len() - i,
    {
        let ghost before = out@;
        if dirs[i].is_none() {
            out.push(String::from_str(names[i]));
            assert(out@.map_values(|s: String| s@) =~= before.map_values(|s: String| s@).push(names@[i as int]@));
        }
        i = i + 1;
    }
    out
}

} // verus!
