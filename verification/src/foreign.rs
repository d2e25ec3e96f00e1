//! Foreign binding registry.
//!
//! The interpreter resolves a foreign class or method at first use by
//! calling back with a (module, class[, signature, is-static]) key; the
//! registry answers with the host trampoline registered under that key.
//! Trampolines are identified by plain numbers here; dispatching a number
//! to host code is the embedder's affair. A lookup miss is an ordinary
//! `None`: the interpreter itself reports unbound foreign methods to the
//! script.
use vstd::prelude::*;

use crate::text::str_eq;

verus! {

/// Key of a foreign class binding.
#[derive(Debug)]
pub struct ForeignClassKey {
    pub module: String,
    pub class: String,
}

impl Clone for ForeignClassKey {
    fn clone(&self) -> (res: Self)
        ensures
            res == self,
    {
        ForeignClassKey { module: self.module.clone(), class: self.class.clone() }
    }
}

/// The allocate and finalize trampolines of a foreign class.
#[derive(Debug, PartialEq, Eq, Structural, Clone, Copy)]
pub struct ForeignClass {
    pub allocate: u64,
    pub finalize: u64,
}

/// Key of a foreign method binding.
#[derive(Debug)]
pub struct ForeignMethodKey {
    pub module: String,
    pub class: String,
    pub sig: String,
    pub is_static: bool,
}

/// A host method bound to a foreign declaration.
#[derive(Debug)]
pub struct ForeignMethod {
    pub is_static: bool,
    pub arity: usize,
    pub sig: String,
    pub func: u64,
}

/// Whether a class entry's key names the given module and class.
pub open spec fn class_key_matches(k: ForeignClassKey, module: Seq<char>, class: Seq<char>) -> bool {
    k.module@ == module && k.class@ == class
}

/// Whether a method entry's key names the given method.
pub open spec fn method_key_matches(
    k: ForeignMethodKey,
    module: Seq<char>,
    class: Seq<char>,
    sig: Seq<char>,
    is_static: bool,
) -> bool {
    k.module@ == module && k.class@ == class && k.sig@ == sig && k.is_static == is_static
}

/// The class binding registered under a key; a later registration under the
/// same key wins.
pub open spec fn lookup_class(
    entries: Seq<(ForeignClassKey, ForeignClass)>,
    module: Seq<char>,
    class: Seq<char>,
) -> Option<ForeignClass>
    decreases entries.len(),
{
    if entries.len() == 0 {
        None
    } else if class_key_matches(entries.last().0, module, class) {
        Some(entries.last().1)
    } else {
        lookup_class(entries.drop_last(), module, class)
    }
}

/// The method trampoline registered under a key; a later registration under
/// the same key wins.
pub open spec fn lookup_method(
    entries: Seq<(ForeignMethodKey, ForeignMethod)>,
    module: Seq<char>,
    class: Seq<char>,
    sig: Seq<char>,
    is_static: bool,
) -> Option<u64>
    decreases entries.len(),
{
    if entries.len() == 0 {
        None
    } else if method_key_matches(entries.last().0, module, class, sig, is_static) {
        Some(entries.last().1.func)
    } else {
        lookup_method(entries.drop_last(), module, class, sig, is_static)
    }
}

/// The class key registered for a host type tag; a later registration wins.
pub open spec fn lookup_reverse(entries: Seq<(u64, ForeignClassKey)>, tag: u64) -> Option<
    ForeignClassKey,
>
    decreases entries.len(),
{
    if entries.len() == 0 {
        None
    } else if entries.last().0 == tag {
        Some(entries.last().1)
    } else {
        lookup_reverse(entries.drop_last(), tag)
    }
}

/// Registry of foreign class and method bindings, with a reverse index
/// from host type tags back to class keys.
#[derive(Debug)]
pub struct ForeignBindings {
    pub classes: Vec<(ForeignClassKey, ForeignClass)>,
    pub methods: Vec<(ForeignMethodKey, ForeignMethod)>,
    pub reverse: Vec<(u64, ForeignClassKey)>,
}

impl ForeignBindings {
    pub fn new() -> (r: Self)
        ensures
            r.classes@.len() == 0,
            r.methods@.len() == 0,
            r.reverse@.len() == 0,
    {
        ForeignBindings { classes: Vec::new(), methods: Vec::new(), reverse: Vec::new() }
    }

    /// Register a class binding. Registering the same key again silently
    /// overwrites: the newest entry wins every later lookup.
    pub fn add_class(&mut self, key: ForeignClassKey, binding: ForeignClass)
        ensures
            final(self).classes@ == old(self).classes@.push((key, binding)),
            final(self).methods == old(self).methods,
            final(self).reverse == old(self).reverse,
    {
        self.classes.push((key, binding));
    }

    /// Register a method binding. Registering the same key again silently
    /// overwrites: the newest entry wins every later lookup.
    pub fn add_method(&mut self, key: ForeignMethodKey, binding: ForeignMethod)
        ensures
            final(self).methods@ == old(self).methods@.push((key, binding)),
            final(self).classes == old(self).classes,
            final(self).reverse == old(self).reverse,
    {
        self.methods.push((key, binding));
    }

    /// Register the reverse lookup from a host type tag to its class key.
    pub fn add_reverse(&mut self, tag: u64, key: ForeignClassKey)
        ensures
            final(self).reverse@ == old(self).reverse@.push((tag, key)),
            final(self).classes == old(self).classes,
            final(self).methods == old(self).methods,
    {
        self.reverse.push((tag, key));
    }

    /// Answer the interpreter's bind-foreign-class callback: the allocate
    /// and finalize pair registered for the class, if any.
    pub fn bind_foreign_class(&self, module: &str, class: &str) -> (r: Option<ForeignClass>)
        ensures
            r == lookup_class(self.classes@, module@, class@),
    {
        let mut i = self.classes.len();
        proof {
            assert(self.classes@.subrange(0, self.classes@.len() as int) =~= self.classes@);
        }
        while i > 0
            invariant
                i <= self.classes@.len(),
                lookup_class(self.classes@.subrange(0, i as int), module@, class@) == lookup_class(
                    self.classes@,
                    module@,
                    class@,
                ),
            decreases i,
        {
            i -= 1;
            let entry = &self.classes[i];
            proof {
                assert(self.classes@.subrange(0, i + 1).drop_last() =~= self.classes@.subrange(
                    0,
                    i as int,
                ));
                assert(self.classes@.subrange(0, i + 1).last() == self.classes@[i as int]);
            }
            if str_eq(entry.0.module.as_str(), module) && str_eq(entry.0.class.as_str(), class) {
                return Some(entry.1);
            }
        }
        proof {
            assert(self.classes@.subrange(0, 0) =~= Seq::<(ForeignClassKey, ForeignClass)>::empty());
        }
        None
    }

    /// Answer the interpreter's bind-foreign-method callback: the trampoline
    /// registered for the method, if any.
    pub fn bind_foreign_method(&self, module: &str, class: &str, is_static: bool, signature: &str) -> (r:
        Option<u64>)
        ensures
            r == lookup_method(self.methods@, module@, class@, signature@, is_static),
    {
        let mut i = self.methods.len();
        proof {
            assert(self.methods@.subrange(0, self.methods@.len() as int) =~= self.methods@);
        }
        while i > 0
            invariant
                i <= self.methods@.len(),
                lookup_method(self.methods@.subrange(0, i as int), module@, class@, signature@, is_static)
                    == lookup_method(self.methods@, module@, class@, signature@, is_static),
            decreases i,
        {
            i -= 1;
            let entry = &self.methods[i];
            proof {
                assert(self.methods@.subrange(0, i + 1).drop_last() =~= self.methods@.subrange(
                    0,
                    i as int,
                ));
                assert(self.methods@.subrange(0, i + 1).last() == self.methods@[i as int]);
            }
            if entry.0.is_static == is_static && str_eq(entry.0.module.as_str(), module) && str_eq(
                entry.0.class.as_str(),
                class,
            ) && str_eq(entry.0.sig.as_str(), signature) {
                return Some(entry.1.func);
            }
        }
        proof {
            assert(self.methods@.subrange(0, 0) =~= Seq::<(ForeignMethodKey, ForeignMethod)>::empty());
        }
        None
    }

    /// The module and class under which the host type with the given tag
    /// was registered; lets host code construct instances without spelling
    /// the class name again.
    pub fn get_class_key(&self, tag: u64) -> (r: Option<ForeignClassKey>)
        ensures
            r == lookup_reverse(self.reverse@, tag),
    {
        let mut i = self.reverse.len();
        proof {
            assert(self.reverse@.subrange(0, self.reverse@.len() as int) =~= self.reverse@);
        }
        while i > 0
            invariant
                i <= self.reverse@.len(),
                lookup_reverse(self.reverse@.subrange(0, i as int), tag) == lookup_reverse(
                    self.reverse@,
                    tag,
                ),
            decreases i,
        {
            i -= 1;
            let entry = &self.reverse[i];
            proof {
                assert(self.reverse@.subrange(0, i + 1).drop_last() =~= self.reverse@.subrange(
                    0,
                    i as int,
                ));
                assert(self.reverse@.subrange(0, i + 1).last() == self.reverse@[i as int]);
            }
            if entry.0 == tag {
                return Some(entry.1.clone());
            }
        }
        proof {
            assert(self.reverse@.subrange(0, 0) =~= Seq::<(u64, ForeignClassKey)>::empty());
        }
        None
    }
}

} // verus!
