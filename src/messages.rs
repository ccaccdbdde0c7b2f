use vstd::prelude::*;
use crate::decimal::decimal_text;

verus! {

/// Logged when a set is refused because the value is empty.
pub open spec fn blank_msg(k: Seq<char>) -> Seq<char> {
    "Value for `"@ + k + "` is blank, not setting.\nUse the [Del] button to remove a key.\n"@
}

/// Logged when a set overwrites an existing key.
pub open spec fn exists_msg(k: Seq<char>) -> Seq<char> {
    "Key "@ + k + " exists, removing old value.\n"@
}

/// Logged when a key is set.
pub open spec fn setting_msg(k: Seq<char>, v: Seq<char>) -> Seq<char> {
    "Setting key `"@ + k + "` = `"@ + v + "`\n"@
}

/// Logged when a get finds the key.
pub open spec fn got_msg(k: Seq<char>, v: Seq<char>) -> Seq<char> {
    "Got `"@ + k + "`s value: `"@ + v + "`\n"@
}

/// Logged when a get or a delete names a key that is not in the store.
pub open spec fn not_set_msg(k: Seq<char>) -> Seq<char> {
    "Key `"@ + k + "` is not set!\n"@
}

/// Logged when a confirmed delete removes a key.
pub open spec fn removing_msg(k: Seq<char>) -> Seq<char> {
    "Removing key `"@ + k + "`!\n"@
}

/// Logged when the second window is shown.
pub open spec fn showing_msg() -> Seq<char> {
    "Showing window!\n"@
}

/// Logged when the second window is hidden.
pub open spec fn hiding_msg() -> Seq<char> {
    "Hiding window!\n"@
}

/// The title of the `n`-th document created.
pub open spec fn doc_title(n: nat) -> Seq<char> {
    "New Document "@ + decimal_text(n)
}

/// Appends `a`, `k` and `b` to `out`.
pub fn append3(out: &mut String, a: &str, k: &str, b: &str)
    ensures
        final(out)@ == old(out)@ + (a@ + k@ + b@),
{
    out.append(a);
    out.append(k);
    out.append(b);
    assert(out@ =~= old(out)@ + (a@ + k@ + b@));
}

/// Appends `a`, `k`, `b`, `v` and `c` to `out`.
pub fn append5(out: &mut String, a: &str, k: &str, b: &str, v: &str, c: &str)
    ensures
        final(out)@ == old(out)@ + (a@ + k@ + b@ + v@ + c@),
{
    out.append(a);
    out.append(k);
    out.append(b);
    out.append(v);
    out.append(c);
    assert(out@ =~= old(out)@ + (a@ + k@ + b@ + v@ + c@));
}

} // verus!
