//! Module resolution and loading.
//!
//! When a script imports a module, the interpreter asks a resolver for
//! the canonical name and a loader for the source text. Both are host
//! collaborators supplied by the embedder; the file-based loader's path
//! arithmetic lives here, while the read from disk belongs to the
//! embedding program.
use vstd::prelude::*;

verus! {

/// Turns an import name, as written next to its importer, into a
/// canonical module name; `None` aborts the import.
pub trait ModuleResolver {
    fn resolve(&mut self, importer: &str, module: &str) -> Option<String>;
}

/// Supplies a module's source text by canonical name; `None` means not
/// found. `on_complete` is called once the interpreter has finished with
/// the text.
pub trait ModuleLoader {
    fn load(&mut self, name: &str) -> Option<String>;

    fn on_complete(&mut self, name: &str) {
    }
}

/// Resolver that takes every module name as already canonical.
#[derive(Debug)]
pub struct UnitModuleResolver;

impl UnitModuleResolver {
    pub fn new() -> (r: Self)
        ensures
            r == UnitModuleResolver,
    {
        UnitModuleResolver
    }

    /// The identity resolution: every import name is taken as already
    /// canonical, whoever imports it, and resolution never fails.
    pub fn resolve_as_is(&self, module: &str) -> (r: Option<String>)
        ensures
            r matches Some(name) && name@ == module@,
    {
        Some(String::from_str(module))
    }
}

impl ModuleResolver for UnitModuleResolver {
    fn resolve(&mut self, importer: &str, module: &str) -> Option<String> {
        self.resolve_as_is(module)
    }
}

/// Whether a name already carries the source file suffix.
pub open spec fn has_source_suffix(s: Seq<char>) -> bool {
    s.len() >= 5 && s.subrange(s.len() - 5, s.len() as int) == seq!['.', 'w', 'r', 'e', 'n']
}

/// File-based module loading: an import name is a path relative to a
/// root directory, with the source suffix appended when missing. The
/// read itself is the embedder's; this type only owns the path
/// arithmetic.
#[derive(Debug)]
pub struct FileModuleLoader {
    pub root: String,
}

impl FileModuleLoader {
    pub fn with_root(root: &str) -> (r: Self)
        ensures
            r.root@ == root@,
    {
        FileModuleLoader { root: String::from_str(root) }
    }

    /// The path under the root from which the named module is read.
    pub fn source_path(&self, name: &str) -> (r: String)
        ensures
            r@ == self.root@ + seq!['/'] + (if has_source_suffix(name@) {
                name@
            } else {
                name@ + seq!['.', 'w', 'r', 'e', 'n']
            }),
    {
        let mut path = self.root.clone();
        path.append("/");
        path.append(name);
        let n = name.unicode_len();
        let suffixed = n >= 5 && name.get_char(n - 5) == '.' && name.get_char(n - 4) == 'w'
            && name.get_char(n - 3) == 'r' && name.get_char(n - 2) == 'e' && name.get_char(n - 1)
            == 'n';
        proof {
            reveal_strlit("/");
            reveal_strlit(".wren");
            if suffixed {
                assert(name@.subrange(name@.len() - 5, name@.len() as int) =~= seq![
                    '.',
                    'w',
                    'r',
                    'e',
                    'n',
                ]);
            } else if n >= 5 {
                assert(!(name@.subrange(name@.len() - 5, name@.len() as int) =~= seq![
                    '.',
                    'w',
                    'r',
                    'e',
                    'n',
                ]));
            }
        }
        if !suffixed {
            path.append(".wren");
            proof {
                assert(".wren"@ =~= seq!['.', 'w', 'r', 'e', 'n']);
            }
        }
        path
    }
}

} // verus!
