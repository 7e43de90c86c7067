//! Resolving a function of a loaded module by name.
//!
//! The platform's module and symbol tables are read by whoever uses this
//! module; what is decided here is which names may be looked up at all and
//! what a lookup's answer means.

use vstd::prelude::*;
use vstd::string::StringExecFns;
use crate::text::{decimal, with_decimal};

verus! {

/// The text for a name that no table can hold.
pub const INVALID_NAME: &'static str = "Failed resolving symbol, name holds a NUL character";

/// What the text for a module that is not loaded begins with.
pub const MODULE_LOOKUP_FAILED: &'static str = "Failed GetModuleHandle, GetLastError: ";

/// What the text for an absent symbol begins with.
pub const SYMBOL_LOOKUP_FAILED: &'static str = "Failed GetProcAddress, GetLastError: ";

/// Why a symbol could not be resolved.
#[derive(Clone, Copy, PartialEq, Eq, Debug, Structural)]
pub enum ResolutionError {
    /// The module's or the symbol's name holds a NUL character, so no
    /// table can hold it.
    InvalidName,
    /// No module of that name is loaded; the platform gave this error code.
    ModuleNotLoaded(u32),
    /// The module has no symbol of that name; the platform gave this error
    /// code.
    SymbolAbsent(u32),
}

impl ResolutionError {
    /// The diagnostic text of the error: the step that failed and, where
    /// the platform gave one, its error code in decimal.
    pub open spec fn message_of(self) -> Seq<char> {
        match self {
            ResolutionError::InvalidName => INVALID_NAME@,
            ResolutionError::ModuleNotLoaded(code) => MODULE_LOOKUP_FAILED@ + decimal(code as nat),
            ResolutionError::SymbolAbsent(code) => SYMBOL_LOOKUP_FAILED@ + decimal(code as nat),
        }
    }

    /// The diagnostic text of the error.
    pub fn message(&self) -> (text: String)
        ensures
            text@ == self.message_of(),
    {
        match self {
            ResolutionError::InvalidName => String::from_str(INVALID_NAME),
            ResolutionError::ModuleNotLoaded(code) => with_decimal(MODULE_LOOKUP_FAILED, *code),
            ResolutionError::SymbolAbsent(code) => with_decimal(SYMBOL_LOOKUP_FAILED, *code),
        }
    }
}

/// What the platform's tables answered to a lookup.
#[derive(Clone, Copy, PartialEq, Eq, Debug, Structural)]
pub enum Lookup {
    /// No module of that name is loaded; the platform gave this error code.
    ModuleNotLoaded(u32),
    /// The module is loaded and has no such symbol; the platform gave this
    /// error code.
    SymbolAbsent(u32),
    /// The symbol stands at this address.
    Found(usize),
}

impl Lookup {
    /// What the answer means: an address that is not null, or the error.
    /// A symbol said to stand at the null address is an absent symbol.
    pub open spec fn meaning(self) -> Result<usize, ResolutionError> {
        match self {
            Lookup::ModuleNotLoaded(code) => Err(ResolutionError::ModuleNotLoaded(code)),
            Lookup::SymbolAbsent(code) => Err(ResolutionError::SymbolAbsent(code)),
            Lookup::Found(address) => if address == 0 {
                Err(ResolutionError::SymbolAbsent(0))
            } else {
                Ok(address)
            },
        }
    }
}

/// The name holds a NUL character.
pub open spec fn holds_nul(name: Seq<char>) -> bool {
    exists|i: int| 0 <= i < name.len() && name[i] == '\0'
}

/// Whether the name holds a NUL character.
pub fn contains_nul(name: &str) -> (found: bool)
    ensures
        found == holds_nul(name@),
{
    broadcast use vstd::string::group_string_axioms;

    for character in characters: name.chars()
        invariant
            characters.seq() == name@,
            forall|j: int| 0 <= j < characters.index() ==> name@[j] != '\0',
    {
        if character == '\0' {
            return true;
        }
    }
    false
}

/// A module name and a symbol name, as mathematical values.
#[verifier::ext_equal]
pub struct RequestModel {
    pub module: Seq<char>,
    pub symbol: Seq<char>,
}

/// A resolved symbol as a mathematical value.
#[verifier::ext_equal]
pub struct SymbolModel {
    pub module: Seq<char>,
    pub symbol: Seq<char>,
    pub address: usize,
}

/// A module name and a symbol name that may be looked up: neither holds a
/// NUL character.
pub struct SymbolRequest {
    module: String,
    symbol: String,
}

impl View for SymbolRequest {
    type V = RequestModel;

    closed spec fn view(&self) -> RequestModel {
        RequestModel { module: self.module@, symbol: self.symbol@ }
    }
}

/// A symbol with the address it was found at. The address is not null, and
/// nothing changes a resolved symbol.
pub struct ResolvedSymbol {
    module: String,
    symbol: String,
    address: usize,
}

impl View for ResolvedSymbol {
    type V = SymbolModel;

    closed spec fn view(&self) -> SymbolModel {
        SymbolModel { module: self.module@, symbol: self.symbol@, address: self.address }
    }
}

impl RequestModel {
    /// Neither name holds a NUL character.
    pub open spec fn wf(self) -> bool {
        !holds_nul(self.module) && !holds_nul(self.symbol)
    }

    /// What a lookup's answer makes of the request.
    pub open spec fn resolved(self, lookup: Lookup) -> Result<SymbolModel, ResolutionError> {
        match lookup.meaning() {
            Ok(address) => Ok(SymbolModel { module: self.module, symbol: self.symbol, address }),
            Err(error) => Err(error),
        }
    }
}

impl SymbolModel {
    /// Neither name holds a NUL character and the address is not null.
    pub open spec fn wf(self) -> bool {
        !holds_nul(self.module) && !holds_nul(self.symbol) && self.address != 0
    }
}

impl SymbolRequest {
    #[verifier::type_invariant]
    spec fn names_are_clean(self) -> bool {
        !holds_nul(self.module@) && !holds_nul(self.symbol@)
    }

    /// Checks the two names. A name that holds a NUL character is refused
    /// with [`ResolutionError::InvalidName`]; every other pair of names is
    /// accepted.
    pub fn new(module: &str, symbol: &str) -> (request: Result<SymbolRequest, ResolutionError>)
        ensures
            request is Err <==> holds_nul(module@) || holds_nul(symbol@),
            request matches Err(error) ==> error == ResolutionError::InvalidName,
            request matches Ok(accepted) ==> accepted@ == (RequestModel {
                module: module@,
                symbol: symbol@,
            }) && accepted@.wf(),
    {
        if contains_nul(module) || contains_nul(symbol) {
            Err(ResolutionError::InvalidName)
        } else {
            Ok(SymbolRequest { module: String::from_str(module), symbol: String::from_str(symbol) })
        }
    }

    /// The module's name.
    pub fn module(&self) -> (name: &str)
        ensures
            name@ == self@.module,
            !holds_nul(name@),
    {
        proof {
            use_type_invariant(self);
        }
        self.module.as_str()
    }

    /// The symbol's name.
    pub fn symbol(&self) -> (name: &str)
        ensures
            name@ == self@.symbol,
            !holds_nul(name@),
    {
        proof {
            use_type_invariant(self);
        }
        self.symbol.as_str()
    }

    /// Joins the request with what the platform's tables answered.
    pub fn resolved(self, lookup: Lookup) -> (outcome: Result<ResolvedSymbol, ResolutionError>)
        ensures
            outcome is Ok <==> self@.resolved(lookup) is Ok,
            outcome matches Ok(found) ==> self@.resolved(lookup) == Ok::<
                SymbolModel,
                ResolutionError,
            >(found@) && found@.wf(),
            outcome matches Err(error) ==> self@.resolved(lookup) == Err::<
                SymbolModel,
                ResolutionError,
            >(error),
    {
        proof {
            use_type_invariant(&self);
        }
        match lookup {
            Lookup::ModuleNotLoaded(code) => Err(ResolutionError::ModuleNotLoaded(code)),
            Lookup::SymbolAbsent(code) => Err(ResolutionError::SymbolAbsent(code)),
            Lookup::Found(address) => {
                if address == 0 {
                    Err(ResolutionError::SymbolAbsent(0))
                } else {
                    Ok(ResolvedSymbol { module: self.module, symbol: self.symbol, address })
                }
            },
        }
    }
}

impl ResolvedSymbol {
    #[verifier::type_invariant]
    spec fn is_resolved(self) -> bool {
        !holds_nul(self.module@) && !holds_nul(self.symbol@) && self.address != 0
    }

    /// The module's name.
    pub fn module(&self) -> (name: &str)
        ensures
            name@ == self@.module,
            self@.wf(),
    {
        proof {
            use_type_invariant(self);
        }
        self.module.as_str()
    }

    /// The symbol's name.
    pub fn symbol(&self) -> (name: &str)
        ensures
            name@ == self@.symbol,
            self@.wf(),
    {
        proof {
            use_type_invariant(self);
        }
        self.symbol.as_str()
    }

    /// The address the symbol stands at.
    pub fn address(&self) -> (address: usize)
        ensures
            address == self@.address,
            address != 0,
            self@.wf(),
    {
        proof {
            use_type_invariant(self);
        }
        self.address
    }
}

/// Checks the names and joins them with a lookup's answer in one step, for
/// a caller that has the answer at hand. Names that hold a NUL character
/// give [`ResolutionError::InvalidName`] whatever the answer says.
pub fn resolve(module: &str, symbol: &str, lookup: Lookup) -> (outcome: Result<
    ResolvedSymbol,
    ResolutionError,
>)
    ensures
        holds_nul(module@) || holds_nul(symbol@) ==> (outcome matches Err(error) && error
            == ResolutionError::InvalidName),
        !holds_nul(module@) && !holds_nul(symbol@) ==> {
            &&& outcome is Ok <==> lookup.meaning() is Ok
            &&& outcome matches Ok(found) ==> found@ == (SymbolModel {
                module: module@,
                symbol: symbol@,
                address: lookup.meaning()->Ok_0,
            })
            &&& outcome matches Err(error) ==> lookup.meaning() == Err::<usize, ResolutionError>(
                error,
            )
        },
{
    match SymbolRequest::new(module, symbol) {
        Ok(request) => request.resolved(lookup),
        Err(error) => Err(error),
    }
}

} // verus!
