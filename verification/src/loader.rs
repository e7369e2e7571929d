//! The loader registry: the set of installed functions, keyed by declared
//! name, together with a library-identity index keyed by the artifact's
//! file stem.
//!
//! Installing an artifact evicts any previous install of the same
//! library identity, and any stale identity entry that still points at the
//! declared name being installed: the registry holds at most one entry per
//! declared name and at most one identity per declared name.

use vstd::prelude::*;
use vstd::string::StringExecFns;

use crate::funck::{CallResult, Funcktion, Request, Response};
use crate::strmap::StringMap;

verus! {

/// What can go wrong while loading or invoking functions.
#[derive(Debug)]
pub enum Error {
    /// The function reported a failure during a call.
    CallError { name: String, source: crate::funck::CallError },
    /// The artifact could not be opened as a dynamic library.
    FailedToLoadLibrary { path: String, message: String },
    /// The artifact lacks the well-known constructor symbol.
    MissingSymbol { path: String, symbol: String },
    /// No function with the given declared name is installed.
    UnknownFunction { name: String },
}

/// The failure message of a loader error.
pub open spec fn spec_error_message(e: Error) -> Seq<char> {
    match e {
        Error::CallError { name, source } => "error calling function "@ + name@ + ": "@
            + source.spec_message(),
        Error::FailedToLoadLibrary { path, message } => "failed to load shared object "@ + path@
            + ": "@ + message@,
        Error::MissingSymbol { path, symbol } => "symbol "@ + symbol@
            + " not found in shared object "@ + path@,
        Error::UnknownFunction { name } => "unknown function: "@ + name@,
    }
}

impl Error {
    /// The failure message.
    pub fn message(&self) -> (r: String)
        ensures
            r@ == spec_error_message(*self),
    {
        match self {
            Error::CallError { name, source } => {
                let mut r = String::from_str("error calling function ");
                r.append(name.as_str());
                r.append(": ");
                r.append(source.message().as_str());
                r
            },
            Error::FailedToLoadLibrary { path, message } => {
                let mut r = String::from_str("failed to load shared object ");
                r.append(path.as_str());
                r.append(": ");
                r.append(message.as_str());
                r
            },
            Error::MissingSymbol { path, symbol } => {
                let mut r = String::from_str("symbol ");
                r.append(symbol.as_str());
                r.append(" not found in shared object ");
                r.append(path.as_str());
                r
            },
            Error::UnknownFunction { name } => {
                let mut r = String::from_str("unknown function: ");
                r.append(name.as_str());
                r
            },
        }
    }
}

/// The function map after an install: a previous install of the same
/// library identity is evicted, then the new function is recorded under its
/// declared name.
pub open spec fn spec_install_funcks<F>(
    funcks: Map<Seq<char>, F>,
    libs: Map<Seq<char>, Seq<char>>,
    lib: Seq<char>,
    name: Seq<char>,
    f: F,
) -> Map<Seq<char>, F> {
    (if libs.contains_key(lib) {
        funcks.remove(libs[lib])
    } else {
        funcks
    }).insert(name, f)
}

/// The identity index after an install: the new identity maps to the
/// declared name, and every other identity entry that pointed at that name
/// is gone.
pub open spec fn spec_install_libs(
    libs: Map<Seq<char>, Seq<char>>,
    lib: Seq<char>,
    name: Seq<char>,
) -> Map<Seq<char>, Seq<char>> {
    Map::new(
        |k: Seq<char>| k == lib || (libs.contains_key(k) && libs[k] != name),
        |k: Seq<char>|
            if k == lib {
                name
            } else {
                libs[k]
            },
    )
}

/// The registry of installed functions and their library identities.
pub struct FunckLoader<F: Funcktion> {
    funcks: StringMap<F>,
    lib_index: StringMap<String>,
}

impl<F: Funcktion> FunckLoader<F> {
    /// The installed functions, by declared name.
    pub closed spec fn funcks_view(&self) -> Map<Seq<char>, F> {
        self.funcks@
    }

    /// The library-identity index: artifact file stem to declared name.
    pub closed spec fn libs_view(&self) -> Map<Seq<char>, Seq<char>> {
        Map::new(
            |k: Seq<char>| self.lib_index@.contains_key(k),
            |k: Seq<char>| self.lib_index@[k]@,
        )
    }

    /// Well-formedness: the maps are well formed and no two library
    /// identities point at the same declared name.
    pub closed spec fn wf(&self) -> bool {
        &&& self.funcks.wf()
        &&& self.lib_index.wf()
        &&& forall|k1: Seq<char>, k2: Seq<char>|
            self.lib_index@.contains_key(k1) && self.lib_index@.contains_key(k2) && k1 != k2
                ==> self.lib_index@[k1]@ != self.lib_index@[k2]@
    }

    /// An empty registry.
    pub fn new() -> (r: FunckLoader<F>)
        ensures
            r.wf(),
            r.funcks_view() == Map::<Seq<char>, F>::empty(),
            r.libs_view() =~= Map::<Seq<char>, Seq<char>>::empty(),
    {
        let r = FunckLoader { funcks: StringMap::new(), lib_index: StringMap::new() };
        proof {
            assert(r.libs_view() =~= Map::<Seq<char>, Seq<char>>::empty());
        }
        r
    }

    /// Evict the install previously recorded under a library identity, if
    /// any.
    fn unload_library(&mut self, library_name: &String)
        requires
            old(self).wf(),
        ensures
            final(self).wf(),
            final(self).funcks_view() == if old(self).libs_view().contains_key(library_name@) {
                old(self).funcks_view().remove(old(self).libs_view()[library_name@])
            } else {
                old(self).funcks_view()
            },
            final(self).libs_view() =~= old(self).libs_view().remove(library_name@),
    {
        let ghost self0 = *self;
        let evicted = self.lib_index.remove(library_name);
        match evicted {
            Some(old_fn) => {
                let removed = self.funcks.remove(&old_fn);
                proof {
                    assert(old_fn@ == self0.libs_view()[library_name@]);
                    assert(self.libs_view() =~= self0.libs_view().remove(library_name@));
                }
            },
            None => {
                proof {
                    assert(!self0.libs_view().contains_key(library_name@));
                    assert(self.libs_view() =~= self0.libs_view().remove(library_name@));
                }
            },
        }
    }

    /// Evict every identity entry still pointing at a declared name.
    fn unload_name(&mut self, fn_name: &String)
        requires
            old(self).wf(),
        ensures
            final(self).wf(),
            final(self).funcks_view() == old(self).funcks_view(),
            final(self).libs_view() =~= Map::new(
                |k: Seq<char>| old(self).libs_view().contains_key(k) && old(self).libs_view()[k]
                    != fn_name@,
                |k: Seq<char>| old(self).libs_view()[k],
            ),
    {
        let ghost self0 = *self;
        let stale = self.lib_index.key_of_value(fn_name);
        match stale {
            Some(stale_key) => {
                let _ = self.lib_index.remove(&stale_key);
                proof {
                    assert forall|k: Seq<char>|
                        self0.libs_view().contains_key(k) && k != stale_key@ implies
                        self0.libs_view()[k] != fn_name@ by {}
                    assert(self.libs_view() =~= Map::new(
                        |k: Seq<char>| self0.libs_view().contains_key(k) && self0.libs_view()[k]
                            != fn_name@,
                        |k: Seq<char>| self0.libs_view()[k],
                    ));
                }
            },
            None => {
                proof {
                    assert(self.libs_view() =~= Map::new(
                        |k: Seq<char>| self0.libs_view().contains_key(k) && self0.libs_view()[k]
                            != fn_name@,
                        |k: Seq<char>| self0.libs_view()[k],
                    ));
                }
            },
        }
    }

    /// Record a loaded function under its declared name and its artifact's
    /// library identity, evicting what the identity or the name previously
    /// pointed at. Returns the declared name.
    pub fn load_funcktion(&mut self, library_name: &str, funck: F) -> (r: String)
        requires
            old(self).wf(),
        ensures
            final(self).wf(),
            r@ == funck.spec_name(),
            final(self).funcks_view() == spec_install_funcks(
                old(self).funcks_view(),
                old(self).libs_view(),
                library_name@,
                funck.spec_name(),
                funck,
            ),
            final(self).libs_view() =~= spec_install_libs(
                old(self).libs_view(),
                library_name@,
                funck.spec_name(),
            ),
    {
        let ghost self0 = *self;
        let lib_key = library_name.to_owned();
        let fn_name = funck.name();

        // Evict a previous install of the same artifact identity.
        self.unload_library(&lib_key);
        let ghost self1 = *self;

        // Evict a stale identity entry still pointing at the declared name.
        self.unload_name(&fn_name);
        let ghost self2 = *self;

        self.lib_index.insert(lib_key, fn_name.clone());
        let ghost self3 = *self;
        self.funcks.insert(fn_name.clone(), funck);

        proof {
            let ghost name = funck.spec_name();
            let ghost lib = library_name@;
            assert(self.funcks_view() =~= spec_install_funcks(
                self0.funcks_view(),
                self0.libs_view(),
                lib,
                name,
                funck,
            ));
            assert(self.libs_view() =~= self2.libs_view().insert(lib, name));
            assert(self.libs_view() =~= spec_install_libs(self0.libs_view(), lib, name));
            assert forall|k1: Seq<char>, k2: Seq<char>|
                self.lib_index@.contains_key(k1) && self.lib_index@.contains_key(k2) && k1
                    != k2 implies self.lib_index@[k1]@ != self.lib_index@[k2]@ by {
                if k1 != lib && k2 != lib {
                    assert(self2.lib_index@.contains_key(k1) && self2.lib_index@.contains_key(k2));
                } else if k1 == lib {
                    assert(self.lib_index@[k1]@ == name);
                    assert(self2.lib_index@.contains_key(k2));
                    assert(self2.libs_view().contains_key(k2));
                    assert(self1.libs_view().contains_key(k2) && self1.libs_view()[k2] != name);
                    assert(self2.libs_view()[k2] == self2.lib_index@[k2]@);
                    assert(self.lib_index@[k2] == self2.lib_index@[k2]);
                } else {
                    assert(self.lib_index@[k2]@ == name);
                    assert(self2.lib_index@.contains_key(k1));
                    assert(self2.libs_view().contains_key(k1));
                    assert(self1.libs_view().contains_key(k1) && self1.libs_view()[k1] != name);
                    assert(self2.libs_view()[k1] == self2.lib_index@[k1]@);
                    assert(self.lib_index@[k1] == self2.lib_index@[k1]);
                }
            }
        }
        fn_name
    }

    /// Whether a function with the declared name is installed.
    pub fn has(&self, function_name: &str) -> (r: bool)
        requires
            self.wf(),
        ensures
            r == self.funcks_view().contains_key(function_name@),
    {
        self.funcks.contains_key(&function_name.to_owned())
    }

    /// Invoke the installed function with the declared name. An unknown
    /// name reports `UnknownFunction`; a failure inside the function
    /// surfaces as `CallError` under the same name.
    pub fn call(&self, function_name: &str, request: Request) -> (r: Result<Response, Error>)
        requires
            self.wf(),
        ensures
            match r {
                Ok(_) => self.funcks_view().contains_key(function_name@),
                Err(e) => match e {
                    Error::UnknownFunction { name } => !self.funcks_view().contains_key(
                        function_name@,
                    ) && name@ == function_name@,
                    Error::CallError { name, source } => self.funcks_view().contains_key(
                        function_name@,
                    ) && name@ == function_name@,
                    _ => false,
                },
            },
    {
        let key = function_name.to_owned();
        match self.funcks.get(&key) {
            None => Err(Error::UnknownFunction { name: key }),
            Some(funck) => match funck._call_internal(request) {
                Ok(response) => Ok(response),
                Err(source) => Err(Error::CallError { name: key, source }),
            },
        }
    }

    /// Release every installed function and every identity entry.
    pub fn drop_all(&mut self)
        requires
            old(self).wf(),
        ensures
            final(self).wf(),
            final(self).funcks_view() == Map::<Seq<char>, F>::empty(),
            final(self).libs_view() =~= Map::<Seq<char>, Seq<char>>::empty(),
    {
        self.funcks.clear();
        self.lib_index.clear();
        proof {
            assert(self.libs_view() =~= Map::<Seq<char>, Seq<char>>::empty());
        }
    }
}

} // verus!
