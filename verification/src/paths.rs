//! Where the programs put their files, and the user name that those places
//! are built from.

use vstd::prelude::*;
use vstd::string::*;
use crate::text::chars_of;

verus! {

/// The folder that holds every user's home folder.
pub const USERS_PATH: &'static str = "C:\\Users";

/// The folder, inside the user's home, that holds the patcher.
pub const PARENT_FOLDER: &'static str = "Auto spell checker";

/// The separator of path components.
pub const SEPARATOR: &'static str = "\\";

/// The installer's name for the spell checker's executable.
pub const INSTALLED_EXECUTOR_EXE: &'static str = "Auto spell checker.exe";

/// The installer's name for the patcher's executable.
pub const INSTALLED_PATCHER_EXE: &'static str = "Auto spell checker patcher.exe";

/// `s` with every `from` replaced by `to`.
pub open spec fn replace_char(s: Seq<char>, from: char, to: char) -> Seq<char> {
    Seq::new(s.len(), |i: int| if s[i] == from { to } else { s[i] })
}

/// The user name as it is shown: every `'.'` becomes a space, as
/// `name.split(".").collect::<Vec<_>>().join(" ")` makes it.
pub fn display_user_name(user_name: &str) -> (shown: String)
    ensures
        shown@ == replace_char(user_name@, '.', ' '),
{
    let b = chars_of(user_name);
    let n = b.len();
    let mut out = String::new();
    let mut last: usize = 0;
    let mut i: usize = 0;
    proof {
        reveal_strlit(" ");
    }
    assert(replace_char(b@.take(0), '.', ' ') =~= out@);
    while i < n
        invariant
            n == b@.len(),
            b@ == user_name@,
            last <= i <= n,
            out@ == replace_char(b@.take(last as int), '.', ' '),
            forall|k: int| last <= k < i ==> b@[k] != '.',
            " "@ == seq![' '],
        decreases n - i,
    {
        if b[i] == '.' {
            let piece = user_name.substring_char(last, i);
            let ghost before = out@;
            out.append(piece);
            out.append(" ");
            assert(out@ =~= replace_char(b@.take(i + 1), '.', ' ')) by {
                assert(out@ =~= before + b@.subrange(last as int, i as int) + seq![' ']);
                assert forall|k: int| 0 <= k < i + 1 implies #[trigger] out@[k]
                    == replace_char(b@.take(i + 1), '.', ' ')[k] by {
                    if k < last {
                        assert(out@[k] == before[k]);
                        assert(before[k] == replace_char(b@.take(last as int), '.', ' ')[k]);
                    } else if k < i {
                        assert(out@[k] == b@[k]);
                    }
                }
            }
            last = i + 1;
        }
        i += 1;
    }
    let piece = user_name.substring_char(last, n);
    let ghost before = out@;
    out.append(piece);
    assert(out@ =~= replace_char(user_name@, '.', ' ')) by {
        assert(out@ =~= before + b@.subrange(last as int, n as int));
        assert forall|k: int| 0 <= k < n implies #[trigger] out@[k] == replace_char(
            user_name@,
            '.',
            ' ',
        )[k] by {
            if k < last {
                assert(out@[k] == before[k]);
                assert(before[k] == replace_char(b@.take(last as int), '.', ' ')[k]);
            } else {
                assert(out@[k] == b@[k]);
            }
        }
    }
    out
}

/// The folder that the updater keeps the patcher in:
/// `C:\Users\<shown user name>\Auto spell checker`.
pub fn patcher_dir_path(user_name: &str) -> (dir: String)
    ensures
        dir@ == USERS_PATH@ + SEPARATOR@ + replace_char(user_name@, '.', ' ') + SEPARATOR@
            + PARENT_FOLDER@,
{
    let shown = display_user_name(user_name);
    let mut dir = USERS_PATH.to_owned();
    dir.append(SEPARATOR);
    dir.append(shown.as_str());
    dir.append(SEPARATOR);
    dir.append(PARENT_FOLDER);
    dir
}

/// The folder that the installer puts the patcher in: the users' folder with
/// the shown user name written straight after it.
pub fn installer_patcher_dir(user_name: &str) -> (dir: String)
    ensures
        dir@ == USERS_PATH@ + replace_char(user_name@, '.', ' '),
{
    let shown = display_user_name(user_name);
    let mut dir = USERS_PATH.to_owned();
    dir.append(shown.as_str());
    dir
}

/// The path of the file `file_name` in the folder `dir`.
pub fn install_file_path(dir: &str, file_name: &str) -> (path: String)
    ensures
        path@ == dir@ + SEPARATOR@ + file_name@,
{
    let mut path = dir.to_owned();
    path.append(SEPARATOR);
    path.append(file_name);
    path
}

} // verus!
