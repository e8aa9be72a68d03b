//! The built-in list of files to search for.

use vstd::prelude::*;
use crate::text::{views, push_str};

verus! {

/// The built-in search list: event logs, recent-file links, Office
/// directories, registry hives with their logs, and the Windows search index.
pub open spec fn embedded_paths() -> Seq<Seq<char>> {
    seq![
        "C:\\Windows\\System32\\winevt\\Logs\\*.evtx"@,
        "C:\\Windows.old\\Windows\\System32\\winevt\\Logs\\*.evtx"@,
        "C:\\Users\\*\\AppData\\Roaming\\Microsoft\\Windows\\Recent\\*.lnk"@,
        "C:\\Users\\*\\AppData\\Roaming\\Microsoft\\Office\\Recent\\*.lnk"@,
        "C:\\Users\\*\\Desktop\\*.lnk"@,
        "C:\\ProgramData\\Microsoft\\Windows\\Start Menu\\Programs\\*.lnk"@,
        "C:\\Users\\*\\AppData\\Roaming\\Microsoft\\Word\\"@,
        "C:\\Users\\*\\AppData\\Roaming\\Microsoft\\Excel\\"@,
        "C:\\Users\\*\\AppData\\Roaming\\Microsoft\\Publisher\\"@,
        "C:\\Users\\*\\NTUSER.DAT"@,
        "C:\\Users\\*\\NTUSER.DAT.LOG*"@,
        "C:\\Windows\\System32\\config\\DEFAULT"@,
        "C:\\Windows.old\\Windows\\System32\\config\\DEFAULT"@,
        "C:\\Windows\\System32\\config\\DEFAULT.LOG*"@,
        "C:\\Windows.old\\Windows\\System32\\config\\DEFAULT.LOG*"@,
        "C:\\Users\\*\\AppData\\Local\\Microsoft\\Windows\\UsrClass.dat"@,
        "C:\\Users\\*\\AppData\\Local\\Microsoft\\Windows\\UsrClass.dat.LOG*"@,
        "C:\\ProgramData\\Microsoft\\Search\\Data\\Applications\\Windows\\Windows.edb"@,
    ]
}

/// The built-in search list (see `embedded_paths`).
pub fn embedded_search_list() -> (res: Vec<String>)
    ensures
        views(res@) == embedded_paths(),
{
    let mut res: Vec<String> = Vec::new();
    push_str(&mut res, "C:\\Windows\\System32\\winevt\\Logs\\*.evtx");
    push_str(&mut res, "C:\\Windows.old\\Windows\\System32\\winevt\\Logs\\*.evtx");
    push_str(&mut res, "C:\\Users\\*\\AppData\\Roaming\\Microsoft\\Windows\\Recent\\*.lnk");
    push_str(&mut res, "C:\\Users\\*\\AppData\\Roaming\\Microsoft\\Office\\Recent\\*.lnk");
    push_str(&mut res, "C:\\Users\\*\\Desktop\\*.lnk");
    push_str(&mut res, "C:\\ProgramData\\Microsoft\\Windows\\Start Menu\\Programs\\*.lnk");
    push_str(&mut res, "C:\\Users\\*\\AppData\\Roaming\\Microsoft\\Word\\");
    push_str(&mut res, "C:\\Users\\*\\AppData\\Roaming\\Microsoft\\Excel\\");
    push_str(&mut res, "C:\\Users\\*\\AppData\\Roaming\\Microsoft\\Publisher\\");
    push_str(&mut res, "C:\\Users\\*\\NTUSER.DAT");
    push_str(&mut res, "C:\\Users\\*\\NTUSER.DAT.LOG*");
    push_str(&mut res, "C:\\Windows\\System32\\config\\DEFAULT");
    push_str(&mut res, "C:\\Windows.old\\Windows\\System32\\config\\DEFAULT");
    push_str(&mut res, "C:\\Windows\\System32\\config\\DEFAULT.LOG*");
    push_str(&mut res, "C:\\Windows.old\\Windows\\System32\\config\\DEFAULT.LOG*");
    push_str(&mut res, "C:\\Users\\*\\AppData\\Local\\Microsoft\\Windows\\UsrClass.dat");
    push_str(&mut res, "C:\\Users\\*\\AppData\\Local\\Microsoft\\Windows\\UsrClass.dat.LOG*");
    push_str(&mut res, "C:\\ProgramData\\Microsoft\\Search\\Data\\Applications\\Windows\\Windows.edb");
    assert(views(res@) =~= embedded_paths());
    res
}

} // verus!
