use vstd::prelude::*;
use vstd::string::*;
use uuid::Uuid;

verus! {

/// Name of the environment variable that names the compilation database
/// directory.
pub const COMPILATION_DATABASE_DIR: &'static str = "COMPILATION_DATABASE_DIR";

/// The compiler flag that makes the compiler emit a compilation database
/// fragment.
pub const DATABASE_FLAG: &'static str = "-MJ";

/// The file a fragment is written to: `<dir>/<id>.json`.
pub open spec fn database_file(dir: Seq<char>, id: Seq<char>) -> Seq<char> {
    dir + "/"@ + id + ".json"@
}

/// A lower-case hexadecimal digit.
pub open spec fn is_lower_hex_digit(c: char) -> bool {
    ('0' <= c && c <= '9') || ('a' <= c && c <= 'f')
}

/// The hyphenated lower-case text of a random (version 4, RFC 4122 variant)
/// UUID: 36 characters, hyphens at 8, 13, 18 and 23, hex digits elsewhere,
/// the version digit `4` at 14 and a variant digit `8`, `9`, `a` or `b` at 19.
pub open spec fn is_v4_uuid_text(s: Seq<char>) -> bool {
    &&& s.len() == 36
    &&& forall|i: int|
        0 <= i < 36 ==> if i == 8 || i == 13 || i == 18 || i == 23 {
            #[trigger] s[i] == '-'
        } else {
            is_lower_hex_digit(s[i])
        }
    &&& s[14] == '4'
    &&& (s[19] == '8' || s[19] == '9' || s[19] == 'a' || s[19] == 'b')
}

/// Relies on `uuid::Uuid::new_v4` and its `Display` impl: a random version 4
/// identifier in hyphenated lower-case form.
#[verifier::external_body]
fn fresh_database_id() -> (r: String)
    ensures
        is_v4_uuid_text(r@),
{
    Uuid::new_v4().to_string()
}

/// Adds the compiler options that write a compilation database fragment for
/// this compilation into `dir`, under the file name `id`.
pub fn add_database_options(options: &mut Vec<String>, dir: &str, id: &str)
    ensures
        final(options)@.len() == old(options)@.len() + 2,
        forall|i: int| 0 <= i < old(options)@.len() ==> final(options)@[i] == old(options)@[i],
        final(options)@[old(options)@.len() as int]@ == DATABASE_FLAG@,
        final(options)@[old(options)@.len() + 1int]@ == database_file(dir@, id@),
{
    options.push(String::from_str(DATABASE_FLAG));
    let mut file = String::from_str(dir);
    file.append("/");
    file.append(id);
    file.append(".json");
    options.push(file);
}

/// Adds the compilation database options to a compiler invocation when a
/// directory for it is configured.
pub struct CompilationDatabaseVisitor {
    compilation_database_dir: Option<String>,
}

impl CompilationDatabaseVisitor {
    /// The configured directory, if any.
    pub closed spec fn dir(&self) -> Option<Seq<char>> {
        match self.compilation_database_dir {
            Some(d) => Some(d@),
            None => None,
        }
    }

    /// A visitor with no directory configured.
    pub fn new() -> (r: CompilationDatabaseVisitor)
        ensures
            r.dir() is None,
    {
        CompilationDatabaseVisitor { compilation_database_dir: None }
    }

    /// Takes the directory from the value of the environment variable
    /// `COMPILATION_DATABASE_DIR`, when it is set; otherwise keeps what was
    /// configured.
    pub fn init(&mut self, dir_var: Option<String>)
        ensures
            final(self).dir() == match dir_var {
                Some(d) => Some(d@),
                None => old(self).dir(),
            },
    {
        if let Some(d) = dir_var {
            self.compilation_database_dir = Some(d);
        }
    }

    /// The configured directory, which must exist before the options are
    /// added.
    pub fn database_dir(&self) -> (r: Option<String>)
        ensures
            match (r, self.dir()) {
                (Some(a), Some(b)) => a@ == b,
                (None, None) => true,
                _ => false,
            },
    {
        match &self.compilation_database_dir {
            Some(d) => Some(d.clone()),
            None => None,
        }
    }

    /// Adds the options when a directory is configured and `dir_ready` says
    /// that it exists (or was created): the flag, then a fresh file in the
    /// directory. Otherwise the options are left alone.
    pub fn visit(&mut self, options: &mut Vec<String>, dir_ready: bool)
        ensures
            final(self).dir() == old(self).dir(),
            old(self).dir() is None || !dir_ready ==> final(options)@ == old(options)@,
            old(self).dir() is Some && dir_ready ==> {
                &&& final(options)@.len() == old(options)@.len() + 2
                &&& forall|i: int|
                    0 <= i < old(options)@.len() ==> final(options)@[i] == old(options)@[i]
                &&& final(options)@[old(options)@.len() as int]@ == DATABASE_FLAG@
                &&& exists|id: Seq<char>|
                    is_v4_uuid_text(id) && final(options)@[old(options)@.len() + 1int]@
                        == #[trigger] database_file(old(self).dir()->Some_0, id)
            },
    {
        if !dir_ready {
            return;
        }
        match &self.compilation_database_dir {
            Some(dir) => {
                let ghost n = options@.len();
                let id = fresh_database_id();
                add_database_options(options, dir.as_str(), id.as_str());
                assert(dir@ == self.dir()->Some_0);
                assert(is_v4_uuid_text(id@) && options@[n + 1int]@ == database_file(dir@, id@));
            },
            None => {},
        }
    }
}

impl Default for CompilationDatabaseVisitor {
    fn default() -> (r: CompilationDatabaseVisitor)
        ensures
            r.dir() is None,
    {
        CompilationDatabaseVisitor::new()
    }
}

} // verus!
