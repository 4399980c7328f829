use vstd::prelude::*;
use crate::text::prefixed;

verus! {

/// The platform directories that can be asked for by name.
#[derive(Debug, Clone, Copy, PartialEq, Eq, Structural)]
pub enum PathKind {
    AppData,
    AppConfig,
    AppCache,
    AppLog,
    Desktop,
    Documents,
    Downloads,
    Home,
    Music,
    Pictures,
    Public,
    Temp,
    Videos,
}

/// The directory that a symbolic name stands for, if any.
pub open spec fn path_kind_of(name: Seq<char>) -> Option<PathKind> {
    if name == "appData"@ { Some(PathKind::AppData) }
    else if name == "appConfig"@ { Some(PathKind::AppConfig) }
    else if name == "appCache"@ { Some(PathKind::AppCache) }
    else if name == "appLog"@ { Some(PathKind::AppLog) }
    else if name == "desktop"@ { Some(PathKind::Desktop) }
    else if name == "documents"@ { Some(PathKind::Documents) }
    else if name == "downloads"@ { Some(PathKind::Downloads) }
    else if name == "home"@ { Some(PathKind::Home) }
    else if name == "music"@ { Some(PathKind::Music) }
    else if name == "pictures"@ { Some(PathKind::Pictures) }
    else if name == "public"@ { Some(PathKind::Public) }
    else if name == "temp"@ { Some(PathKind::Temp) }
    else if name == "videos"@ { Some(PathKind::Videos) }
    else { None }
}

fn is(name: &String, lit: &str) -> (r: bool)
    ensures
        r == (name@ == lit@),
{
    *name == String::from_str(lit)
}

/// The directory named by `name`, or the error for a name not recognized.
pub fn path_kind(name: &String) -> (r: Result<PathKind, String>)
    ensures
        r is Ok <==> path_kind_of(name@) is Some,
        r is Ok ==> Some(r->Ok_0) == path_kind_of(name@),
        r is Err ==> r->Err_0@ == "Unknown path name: "@ + name@,
{
    if is(name, "appData") { Ok(PathKind::AppData) }
    else if is(name, "appConfig") { Ok(PathKind::AppConfig) }
    else if is(name, "appCache") { Ok(PathKind::AppCache) }
    else if is(name, "appLog") { Ok(PathKind::AppLog) }
    else if is(name, "desktop") { Ok(PathKind::Desktop) }
    else if is(name, "documents") { Ok(PathKind::Documents) }
    else if is(name, "downloads") { Ok(PathKind::Downloads) }
    else if is(name, "home") { Ok(PathKind::Home) }
    else if is(name, "music") { Ok(PathKind::Music) }
    else if is(name, "pictures") { Ok(PathKind::Pictures) }
    else if is(name, "public") { Ok(PathKind::Public) }
    else if is(name, "temp") { Ok(PathKind::Temp) }
    else if is(name, "videos") { Ok(PathKind::Videos) }
    else { Err(prefixed("Unknown path name: ", name)) }
}

/// The message for a directory that the platform could not give.
pub fn path_error(name: &String, detail: &String) -> (r: String)
    ensures
        r@ == "Could not get path "@ + name@ + ": "@ + detail@,
{
    let mut s = prefixed("Could not get path ", name);
    s.append(": ");
    s.append(detail.as_str());
    s
}

/// The answer of the database reset script, from how it ended and what it
/// printed: its output on success, its error output otherwise.
pub fn script_outcome(succeeded: bool, stdout: String, stderr: String) -> (r: Result<String, String>)
    ensures
        succeeded ==> r == Ok::<String, String>(stdout),
        !succeeded ==> r is Err && r->Err_0@ == "Script execution failed: "@ + stderr@,
{
    if succeeded {
        Ok(stdout)
    } else {
        Err(prefixed("Script execution failed: ", &stderr))
    }
}

} // verus!
