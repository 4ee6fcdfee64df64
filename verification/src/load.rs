//! Negotiation of a function table with the debugger's shared library.
//!
//! Loading alternates work that only the embedding program can do (open the
//! library, resolve a symbol, call the entry point, copy the table) with
//! decisions. The decisions are made here. Each step takes what the last piece
//! of work gave and returns either the next piece of work or the error that
//! ends the attempt, so that no work is asked for out of turn: the entry point
//! is called only after it was resolved, and the table is copied only after
//! the entry point reported success.

use vstd::prelude::*;
use vstd::string::StringExecFns;
use std::marker::PhantomData;
use crate::entry::{EntryV100, EntryV110};
use crate::library::{LibraryHandle, LibraryState};
use crate::version::Version;

verus! {

/// The name of the entry point that the shared library exports.
pub const ENTRY_POINT: &'static str = "RENDERDOC_GetAPI";

/// The status with which the entry point reports success.
pub const NEGOTIATED: i32 = 1;

/// Why an instance could not be made.
#[derive(Debug, PartialEq, Eq)]
pub enum LoadError {
    /// The shared library could not be loaded; this is the loader's reason.
    Library(String),
    /// The shared library does not export the entry point; this is the
    /// loader's reason.
    EntryPoint(String),
    /// The entry point offers no revision compatible with the requested one.
    Incompatible,
}

impl LoadError {
    /// The text that describes this error.
    pub open spec fn spec_message(&self) -> Seq<char> {
        match self {
            LoadError::Library(reason) => "load failed: "@ + reason@,
            LoadError::EntryPoint(reason) => "negotiation entry point missing: "@ + reason@,
            LoadError::Incompatible => "Compatible API version not available."@,
        }
    }

    /// The text that describes this error.
    pub fn message(&self) -> (text: String)
        ensures
            text@ == self.spec_message(),
    {
        match self {
            LoadError::Library(reason) => {
                let mut text: String = String::from_str("load failed: ");
                text.append(reason.as_str());
                text
            },
            LoadError::EntryPoint(reason) => {
                let mut text: String = String::from_str("negotiation entry point missing: ");
                text.append(reason.as_str());
                text
            },
            LoadError::Incompatible => String::from_str("Compatible API version not available."),
        }
    }
}

impl Clone for LoadError {
    fn clone(&self) -> (copy: LoadError)
        ensures
            copy.spec_message() == self.spec_message(),
            match self {
                LoadError::Library(reason) => copy matches LoadError::Library(text) && text@
                    == reason@,
                LoadError::EntryPoint(reason) => copy matches LoadError::EntryPoint(text) && text@
                    == reason@,
                LoadError::Incompatible => copy is Incompatible,
            },
    {
        match self {
            LoadError::Library(reason) => LoadError::Library(reason.clone()),
            LoadError::EntryPoint(reason) => LoadError::EntryPoint(reason.clone()),
            LoadError::Incompatible => LoadError::Incompatible,
        }
    }
}

/// A minimum revision to request, as a type: it fixes the number sent to the
/// entry point and the shape of the table that comes back.
pub trait ApiVersion: Sized {
    /// The minimum revision that is requested.
    spec fn minimum() -> Version;

    /// The minimum revision that is requested.
    fn version() -> (version: Version)
        ensures
            version == Self::minimum(),
    ;

    /// The function table that this revision guarantees.
    type Entry;

    /// The table that function pointers make, read in layout order.
    spec fn table(words: Seq<usize>) -> Self::Entry;

    /// Reads the table out of the function pointers copied from the debugger,
    /// given in layout order. There have to be as many as the table of the
    /// requested revision has slots.
    fn entry(words: &[usize]) -> (entry: Option<Self::Entry>)
        ensures
            entry is Some <==> words@.len() >= Self::minimum().spec_tier().spec_slots(),
            entry matches Some(table) ==> table == Self::table(words@),
    ;

    /// Begins an attempt to load: says what the record of the shared library
    /// calls for. Where no load was attempted yet, the library is to be
    /// opened and the outcome recorded before the attempt begins anew. Where
    /// the library is loaded, the entry point is to be resolved in it. Where
    /// the load failed, the attempt fails with the recorded reason.
    fn load(handle: &LibraryHandle) -> (start: Start<Self>)
        ensures
            match handle@ {
                LibraryState::Untried => start is Open,
                LibraryState::Loaded(library) => start matches Start::Resolve(resolution)
                    && resolution.spec_library() == library,
                LibraryState::Failed(reason) => start matches Start::Failed(
                    LoadError::Library(text),
                ) && text@ == reason,
            },
    {
        match handle.library() {
            Some(library) => Start::Resolve(Resolution { library, version: PhantomData }),
            None => match handle.failure() {
                Some(reason) => Start::Failed(LoadError::Library(reason)),
                None => Start::Open,
            },
        }
    }
}

/// Requests a minimum revision of 1.0.0.
#[derive(Clone, Copy, Debug, PartialEq, Eq, Hash, Structural)]
pub enum V100 {
    /// The only value; the type is what matters.
    Requested,
}

/// Requests a minimum revision of 1.1.0.
#[derive(Clone, Copy, Debug, PartialEq, Eq, Hash, Structural)]
pub enum V110 {
    /// The only value; the type is what matters.
    Requested,
}

impl ApiVersion for V100 {
    type Entry = EntryV100;

    open spec fn minimum() -> Version {
        Version::V100
    }

    fn version() -> (version: Version) {
        Version::V100
    }

    open spec fn table(words: Seq<usize>) -> EntryV100 {
        EntryV100::spec_from_words(words)
    }

    fn entry(words: &[usize]) -> (entry: Option<EntryV100>) {
        EntryV100::from_words(words)
    }
}

impl ApiVersion for V110 {
    type Entry = EntryV110;

    open spec fn minimum() -> Version {
        Version::V110
    }

    fn version() -> (version: Version) {
        Version::V110
    }

    open spec fn table(words: Seq<usize>) -> EntryV110 {
        EntryV110::spec_from_words(words)
    }

    fn entry(words: &[usize]) -> (entry: Option<EntryV110>) {
        EntryV110::from_words(words)
    }
}

/// How an attempt to load begins.
#[derive(Debug)]
pub enum Start<V> {
    /// The shared library was not looked for yet: open it, record the outcome,
    /// and begin anew.
    Open,
    /// The shared library is loaded: resolve the entry point in it.
    Resolve(Resolution<V>),
    /// The shared library could not be loaded.
    Failed(LoadError),
}

/// Work to do: resolve the symbol `ENTRY_POINT` in the loaded library.
#[derive(Debug)]
pub struct Resolution<V> {
    library: usize,
    version: PhantomData<V>,
}

/// Work to do: call the entry point with the requested revision and a place
/// for the table's address.
#[derive(Debug)]
pub struct Negotiation<V> {
    entry_point: usize,
    version: PhantomData<V>,
}

/// Work to do: copy the table that the entry point pointed to. A value of
/// this type exists only where the entry point reported success.
#[derive(Debug)]
pub struct Negotiated<V> {
    version: PhantomData<V>,
}

impl<V> Resolution<V> {
    /// The loader's handle of the library in which to resolve the symbol.
    pub closed spec fn spec_library(&self) -> usize {
        self.library
    }

    /// The loader's handle of the library in which to resolve the symbol.
    pub fn library(&self) -> (library: usize)
        ensures
            library == self.spec_library(),
    {
        self.library
    }

    /// The name of the symbol to resolve.
    pub fn symbol(&self) -> (name: &'static str)
        ensures
            name@ == ENTRY_POINT@,
    {
        ENTRY_POINT
    }

    /// Takes the outcome of the resolution. Where the symbol was found, the
    /// entry point at its address is to be called. Where it was not, the
    /// attempt fails, and no call is made.
    pub fn resolved(self, outcome: Result<usize, String>) -> (next: Result<
        Negotiation<V>,
        LoadError,
    >)
        ensures
            match outcome {
                Ok(address) => next matches Ok(negotiation) && negotiation.spec_entry_point()
                    == address,
                Err(reason) => next matches Err(LoadError::EntryPoint(text)) && text@ == reason@,
            },
    {
        match outcome {
            Ok(address) => Ok(Negotiation { entry_point: address, version: PhantomData }),
            Err(reason) => Err(LoadError::EntryPoint(reason)),
        }
    }
}

impl<V> Negotiation<V> {
    /// The address of the entry point to call.
    pub closed spec fn spec_entry_point(&self) -> usize {
        self.entry_point
    }

    /// The address of the entry point to call.
    pub fn entry_point(&self) -> (address: usize)
        ensures
            address == self.spec_entry_point(),
    {
        self.entry_point
    }
}

impl<V: ApiVersion> Negotiation<V> {
    /// The number to hand to the entry point: that of the requested revision.
    pub fn requested(&self) -> (code: u32)
        ensures
            code == V::minimum().spec_code(),
    {
        V::version().code()
    }

    /// Takes the status that the entry point returned. On `NEGOTIATED` the
    /// table is to be copied. On any other status the attempt fails for want
    /// of a compatible revision, and nothing that the entry point may have
    /// written is looked at.
    pub fn answered(self, status: i32) -> (next: Result<Negotiated<V>, LoadError>)
        ensures
            next is Ok <==> status == NEGOTIATED,
            next matches Err(error) ==> error is Incompatible,
    {
        if status == NEGOTIATED {
            Ok(Negotiated { version: PhantomData })
        } else {
            Err(LoadError::Incompatible)
        }
    }
}

impl<V: ApiVersion> Negotiated<V> {
    /// How many function pointers to copy: as many as the table that the
    /// requested revision guarantees holds.
    pub fn slots(&self) -> (n: usize)
        ensures
            n == V::minimum().spec_tier().spec_slots(),
    {
        V::version().tier().slots()
    }
}

} // verus!
