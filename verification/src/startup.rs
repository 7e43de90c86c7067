//! Starting the subsystem when the library is loaded into the host.
//!
//! Startup is a fixed run of steps: open the diagnostic console, resolve the
//! presentation function, prepare the redirection, activate it. Each step's
//! work is done outside; [`Startup`] says which step is next and takes the
//! report of how it went. The first failure ends the run for good.

use vstd::prelude::*;
use vstd::string::StringExecFns;
use crate::redirect::{installation, EnableError, InstallError, Redirection, RedirectionModel};
use crate::symbol::{holds_nul, Lookup, RequestModel, ResolutionError, ResolvedSymbol};
use crate::symbol::{SymbolModel, SymbolRequest};
use crate::text::{decimal, with_decimal};

verus! {

/// The reason code with which the loader announces that the library has
/// been loaded into a process.
pub const DLL_PROCESS_ATTACH: u32 = 1;

/// The module that holds the presentation function.
pub const TARGET_MODULE: &'static str = "opengl32.dll";

/// The presentation function.
pub const TARGET_SYMBOL: &'static str = "wglSwapBuffers";

/// Whether the loader's call with this reason starts the subsystem.
pub fn starts_on(call_reason: u32) -> (starts: bool)
    ensures
        starts == (call_reason == DLL_PROCESS_ATTACH),
{
    call_reason == DLL_PROCESS_ATTACH
}

/// What the loader is answered: on loading, whether startup went through;
/// on every other call, yes. `started` is not read unless `call_reason` is
/// [`DLL_PROCESS_ATTACH`].
pub fn entry_result(call_reason: u32, started: bool) -> (answer: bool)
    ensures
        answer == (call_reason != DLL_PROCESS_ATTACH || started),
{
    if call_reason == DLL_PROCESS_ATTACH {
        started
    } else {
        true
    }
}

/// What the text for a console that could not be opened begins with.
pub const CONSOLE_FAILED: &'static str = "Failed allocating console, GetLastError: ";

/// The text for a null original address.
pub const NULL_ORIGINAL: &'static str = "Failed initializing detour: the original address is null";

/// The text for a null replacement address.
pub const NULL_REPLACEMENT: &'static str = "Failed initializing detour: the replacement address is null";

/// The text for a replacement that is the original.
pub const SAME_ADDRESS: &'static str = "Failed initializing detour: the original is its own replacement";

/// The text for an original that the backend cannot patch.
pub const NOT_HOOKABLE: &'static str = "Failed initializing detour: the original cannot be patched";

/// The text for a second activation.
pub const ALREADY_ENABLED: &'static str = "Failed enabling detour: it is enabled already";

/// The text for an activation that the backend refused.
pub const ENABLE_REFUSED: &'static str = "Failed enabling detour: the patch was refused";

/// Why startup ended early.
#[derive(Clone, Copy, PartialEq, Eq, Debug, Structural)]
pub enum StartupError {
    /// No console could be opened; the platform gave this error code.
    Console(u32),
    /// The presentation function could not be resolved.
    Resolution(ResolutionError),
    /// The redirection could not be prepared.
    Install(InstallError),
    /// The redirection could not be activated.
    Enable(EnableError),
}

impl StartupError {
    /// The diagnostic text of the error: the step that failed and, where
    /// the platform gave one, its error code in decimal.
    pub open spec fn message_of(self) -> Seq<char> {
        match self {
            StartupError::Console(code) => CONSOLE_FAILED@ + decimal(code as nat),
            StartupError::Resolution(error) => error.message_of(),
            StartupError::Install(InstallError::NullOriginal) => NULL_ORIGINAL@,
            StartupError::Install(InstallError::NullReplacement) => NULL_REPLACEMENT@,
            StartupError::Install(InstallError::SameAddress) => SAME_ADDRESS@,
            StartupError::Install(InstallError::NotHookable) => NOT_HOOKABLE@,
            StartupError::Enable(EnableError::AlreadyEnabled) => ALREADY_ENABLED@,
            StartupError::Enable(EnableError::Refused) => ENABLE_REFUSED@,
        }
    }

    /// The diagnostic text of the error.
    pub fn message(&self) -> (text: String)
        ensures
            text@ == self.message_of(),
    {
        match self {
            StartupError::Console(code) => with_decimal(CONSOLE_FAILED, *code),
            StartupError::Resolution(error) => error.message(),
            StartupError::Install(InstallError::NullOriginal) => String::from_str(NULL_ORIGINAL),
            StartupError::Install(InstallError::NullReplacement) => String::from_str(NULL_REPLACEMENT),
            StartupError::Install(InstallError::SameAddress) => String::from_str(SAME_ADDRESS),
            StartupError::Install(InstallError::NotHookable) => String::from_str(NOT_HOOKABLE),
            StartupError::Enable(EnableError::AlreadyEnabled) => String::from_str(ALREADY_ENABLED),
            StartupError::Enable(EnableError::Refused) => String::from_str(ENABLE_REFUSED),
        }
    }
}

/// The one thing to do next.
#[derive(Clone, Copy, PartialEq, Eq, Debug, Structural)]
pub enum StartupAction {
    /// Open the diagnostic console.
    OpenConsole,
    /// Look the startup's symbol up in the startup's module.
    Resolve,
    /// Have the backend prepare its patch of the function at `original`.
    Install { original: usize },
    /// Have the backend put its patch in place.
    Enable,
    /// Startup is through: the redirection is active.
    Finish,
    /// Startup has failed: report the error and start nothing.
    Abort(StartupError),
    /// The report matched nothing that startup had asked for.
    Nothing,
}

/// Where startup stands, as a mathematical value.
#[verifier::ext_equal]
pub enum StartupModel {
    /// Not begun; the names are as they were given.
    Idle(RequestModel),
    /// Waiting for the console.
    Console(RequestModel),
    /// Waiting for the lookup of these names, neither of which holds a NUL
    /// character.
    Symbol(RequestModel),
    /// Waiting for the backend to prepare its patch.
    Install(SymbolModel),
    /// Waiting for the backend to put its patch in place.
    Enable(SymbolModel, RedirectionModel),
    /// Through: the redirection is active.
    Active(SymbolModel, RedirectionModel),
    /// Ended early.
    Failed(StartupError),
}

impl StartupModel {
    /// Startup begins.
    pub open spec fn begin(self) -> (StartupModel, StartupAction) {
        match self {
            StartupModel::Idle(names) => (StartupModel::Console(names), StartupAction::OpenConsole),
            _ => (self, StartupAction::Nothing),
        }
    }

    /// The console was opened, or the platform refused with a code.
    ///
    /// With a console, the names are checked: clean names are to be looked
    /// up, and a name with a NUL character ends startup.
    pub open spec fn console_opened(self, outcome: Result<(), u32>) -> (
        StartupModel,
        StartupAction,
    ) {
        match self {
            StartupModel::Console(names) => match outcome {
                Err(code) => Self::failed(StartupError::Console(code)),
                Ok(_) => if names.wf() {
                    (StartupModel::Symbol(names), StartupAction::Resolve)
                } else {
                    Self::failed(StartupError::Resolution(ResolutionError::InvalidName))
                },
            },
            _ => (self, StartupAction::Nothing),
        }
    }

    /// The platform's tables have answered.
    pub open spec fn symbol_looked_up(self, lookup: Lookup) -> (StartupModel, StartupAction) {
        match self {
            StartupModel::Symbol(names) => match names.resolved(lookup) {
                Ok(symbol) => (
                    StartupModel::Install(symbol),
                    StartupAction::Install { original: symbol.address },
                ),
                Err(error) => Self::failed(StartupError::Resolution(error)),
            },
            _ => (self, StartupAction::Nothing),
        }
    }

    /// The backend has tried to prepare its patch for `replacement`.
    pub open spec fn redirection_installed(self, replacement: usize, hookable: bool) -> (
        StartupModel,
        StartupAction,
    ) {
        match self {
            StartupModel::Install(symbol) => match installation(
                symbol.address,
                replacement,
                hookable,
            ) {
                Ok(redirection) => (
                    StartupModel::Enable(symbol, redirection),
                    StartupAction::Enable,
                ),
                Err(error) => Self::failed(StartupError::Install(error)),
            },
            _ => (self, StartupAction::Nothing),
        }
    }

    /// The backend has tried to put its patch in place.
    pub open spec fn redirection_enabled(self, activated: bool) -> (StartupModel, StartupAction) {
        match self {
            StartupModel::Enable(symbol, redirection) => match redirection.activation(activated) {
                Ok(active) => (StartupModel::Active(symbol, active), StartupAction::Finish),
                Err(error) => Self::failed(StartupError::Enable(error)),
            },
            _ => (self, StartupAction::Nothing),
        }
    }

    /// What holds of every startup that began with [`Startup::new`].
    pub open spec fn wf(self) -> bool {
        match self {
            StartupModel::Idle(_) => true,
            StartupModel::Console(_) => true,
            StartupModel::Symbol(names) => names.wf(),
            StartupModel::Install(symbol) => symbol.wf(),
            StartupModel::Enable(symbol, redirection) => symbol.wf() && redirection.wf()
                && redirection.original == symbol.address && !redirection.enabled,
            StartupModel::Active(symbol, redirection) => symbol.wf() && redirection.wf()
                && redirection.original == symbol.address && redirection.enabled,
            StartupModel::Failed(_) => true,
        }
    }

    /// The end of a startup that failed with `error`.
    pub open spec fn failed(error: StartupError) -> (StartupModel, StartupAction) {
        (StartupModel::Failed(error), StartupAction::Abort(error))
    }
}

/// Where startup stands.
enum Stage {
    Idle(String, String),
    Console(String, String),
    Symbol(SymbolRequest),
    Install(ResolvedSymbol),
    Enable(ResolvedSymbol, Redirection),
    Active(ResolvedSymbol, Redirection),
    Failed(StartupError),
}

/// The startup of the subsystem.
pub struct Startup {
    stage: Stage,
}

impl View for Startup {
    type V = StartupModel;

    closed spec fn view(&self) -> StartupModel {
        match self.stage {
            Stage::Idle(module, symbol) => StartupModel::Idle(
                RequestModel { module: module@, symbol: symbol@ },
            ),
            Stage::Console(module, symbol) => StartupModel::Console(
                RequestModel { module: module@, symbol: symbol@ },
            ),
            Stage::Symbol(request) => StartupModel::Symbol(request@),
            Stage::Install(symbol) => StartupModel::Install(symbol@),
            Stage::Enable(symbol, redirection) => StartupModel::Enable(symbol@, redirection@),
            Stage::Active(symbol, redirection) => StartupModel::Active(symbol@, redirection@),
            Stage::Failed(error) => StartupModel::Failed(error),
        }
    }
}

impl Startup {
    #[verifier::type_invariant]
    spec fn well_formed(self) -> bool {
        self@.wf()
    }

    /// A startup that is to redirect the function `symbol` of `module`.
    pub fn new(module: &str, symbol: &str) -> (startup: Startup)
        ensures
            startup@ == StartupModel::Idle(RequestModel { module: module@, symbol: symbol@ }),
            startup@.wf(),
    {
        Startup { stage: Stage::Idle(String::from_str(module), String::from_str(symbol)) }
    }

    /// A startup that is to redirect the presentation function. Its names
    /// hold no NUL character, so that it will not fail for its names.
    pub fn for_presentation() -> (startup: Startup)
        ensures
            startup@ == StartupModel::Idle(
                RequestModel { module: TARGET_MODULE@, symbol: TARGET_SYMBOL@ },
            ),
            startup@.wf(),
            (RequestModel { module: TARGET_MODULE@, symbol: TARGET_SYMBOL@ }).wf(),
    {
        proof {
            law_target_names_are_clean();
        }
        Startup::new(TARGET_MODULE, TARGET_SYMBOL)
    }

    /// Takes the stage out, leaving a placeholder that the caller
    /// overwrites.
    fn take_stage(&mut self) -> (stage: Stage)
        ensures
            stage == old(self).stage,
    {
        let mut stage = Stage::Failed(StartupError::Console(0));
        std::mem::swap(&mut stage, &mut self.stage);
        stage
    }

    /// Ends startup with `error`.
    fn fail(&mut self, error: StartupError) -> (action: StartupAction)
        ensures
            (final(self)@, action) == StartupModel::failed(error),
    {
        self.stage = Stage::Failed(error);
        StartupAction::Abort(error)
    }

    /// Startup begins.
    pub fn begin(&mut self) -> (action: StartupAction)
        ensures
            final(self)@ == old(self)@.begin().0,
            action == old(self)@.begin().1,
            final(self)@.wf(),
    {
        proof {
            use_type_invariant(&*self);
        }
        match self.take_stage() {
            Stage::Idle(module, symbol) => {
                self.stage = Stage::Console(module, symbol);
                StartupAction::OpenConsole
            },
            other => {
                self.stage = other;
                StartupAction::Nothing
            },
        }
    }

    /// The console was opened, or the platform refused with a code.
    pub fn console_opened(&mut self, outcome: Result<(), u32>) -> (action: StartupAction)
        ensures
            final(self)@ == old(self)@.console_opened(outcome).0,
            action == old(self)@.console_opened(outcome).1,
            final(self)@.wf(),
    {
        proof {
            use_type_invariant(&*self);
        }
        match self.take_stage() {
            Stage::Console(module, symbol) => match outcome {
                Err(code) => self.fail(StartupError::Console(code)),
                Ok(_) => match SymbolRequest::new(module.as_str(), symbol.as_str()) {
                    Ok(request) => {
                        self.stage = Stage::Symbol(request);
                        StartupAction::Resolve
                    },
                    Err(error) => self.fail(StartupError::Resolution(error)),
                },
            },
            other => {
                self.stage = other;
                StartupAction::Nothing
            },
        }
    }

    /// The platform's tables have answered.
    pub fn symbol_looked_up(&mut self, lookup: Lookup) -> (action: StartupAction)
        ensures
            final(self)@ == old(self)@.symbol_looked_up(lookup).0,
            action == old(self)@.symbol_looked_up(lookup).1,
            final(self)@.wf(),
    {
        proof {
            use_type_invariant(&*self);
        }
        match self.take_stage() {
            Stage::Symbol(request) => match request.resolved(lookup) {
                Ok(symbol) => {
                    let original = symbol.address();
                    self.stage = Stage::Install(symbol);
                    StartupAction::Install { original }
                },
                Err(error) => self.fail(StartupError::Resolution(error)),
            },
            other => {
                self.stage = other;
                StartupAction::Nothing
            },
        }
    }

    /// The backend has tried to prepare its patch for `replacement`;
    /// `hookable` says whether it could.
    pub fn redirection_installed(&mut self, replacement: usize, hookable: bool) -> (action:
        StartupAction)
        ensures
            final(self)@ == old(self)@.redirection_installed(replacement, hookable).0,
            action == old(self)@.redirection_installed(replacement, hookable).1,
            final(self)@.wf(),
    {
        proof {
            use_type_invariant(&*self);
        }
        match self.take_stage() {
            Stage::Install(symbol) => match Redirection::install(
                symbol.address(),
                replacement,
                hookable,
            ) {
                Ok(redirection) => {
                    self.stage = Stage::Enable(symbol, redirection);
                    StartupAction::Enable
                },
                Err(error) => self.fail(StartupError::Install(error)),
            },
            other => {
                self.stage = other;
                StartupAction::Nothing
            },
        }
    }

    /// The backend has tried to put its patch in place; `activated` says
    /// whether it did.
    pub fn redirection_enabled(&mut self, activated: bool) -> (action: StartupAction)
        ensures
            final(self)@ == old(self)@.redirection_enabled(activated).0,
            action == old(self)@.redirection_enabled(activated).1,
            final(self)@.wf(),
    {
        proof {
            use_type_invariant(&*self);
        }
        match self.take_stage() {
            Stage::Enable(symbol, redirection) => {
                let mut redirection = redirection;
                match redirection.enable(activated) {
                    Ok(()) => {
                        self.stage = Stage::Active(symbol, redirection);
                        StartupAction::Finish
                    },
                    Err(error) => self.fail(StartupError::Enable(error)),
                }
            },
            other => {
                self.stage = other;
                StartupAction::Nothing
            },
        }
    }

    /// The names that are to be looked up, while the lookup is awaited.
    pub fn request(&self) -> (request: Option<&SymbolRequest>)
        ensures
            match self@ {
                StartupModel::Symbol(names) => request matches Some(found) && found@ == names,
                _ => request is None,
            },
            self@.wf(),
    {
        proof {
            use_type_invariant(self);
        }
        match &self.stage {
            Stage::Symbol(request) => Some(request),
            _ => None,
        }
    }

    /// The redirection, once it is prepared, to look at: only startup
    /// activates it.
    pub fn redirection(&self) -> (redirection: Option<&Redirection>)
        ensures
            match self@ {
                StartupModel::Enable(_, model) => redirection matches Some(found) && found@
                    == model,
                StartupModel::Active(_, model) => redirection matches Some(found) && found@
                    == model,
                _ => redirection is None,
            },
            self@.wf(),
    {
        proof {
            use_type_invariant(self);
        }
        match &self.stage {
            Stage::Enable(_, redirection) => Some(redirection),
            Stage::Active(_, redirection) => Some(redirection),
            _ => None,
        }
    }

    /// Whether startup is through.
    pub fn is_active(&self) -> (active: bool)
        ensures
            active == (self@ is Active),
            self@.wf(),
    {
        proof {
            use_type_invariant(self);
        }
        match &self.stage {
            Stage::Active(_, _) => true,
            _ => false,
        }
    }

    /// Why startup ended early, if it did.
    pub fn failure(&self) -> (error: Option<StartupError>)
        ensures
            error == match self@ {
                StartupModel::Failed(reason) => Some(reason),
                _ => None::<StartupError>,
            },
    {
        match &self.stage {
            Stage::Failed(reason) => Some(*reason),
            _ => None,
        }
    }
}

/// Neither the name of the module that holds the presentation function nor
/// the name of that function holds a NUL character: the startup for the
/// presentation function gets past the check of its names.
pub proof fn law_target_names_are_clean()
    ensures
        !holds_nul(TARGET_MODULE@),
        !holds_nul(TARGET_SYMBOL@),
        (RequestModel { module: TARGET_MODULE@, symbol: TARGET_SYMBOL@ }).wf(),
        StartupModel::Idle(
            RequestModel { module: TARGET_MODULE@, symbol: TARGET_SYMBOL@ },
        ).begin().0.console_opened(Ok(())).1 == StartupAction::Resolve,
{
    reveal_strlit("opengl32.dll");
    reveal_strlit("wglSwapBuffers");
}

/// The steps of startup come in one order: console, lookup, preparation,
/// activation. Where every step succeeds, for clean names, an address that
/// is not null and a replacement that is another function, startup is
/// through with the redirection active between exactly those two addresses.
pub proof fn law_startup_runs_in_order(
    names: RequestModel,
    original: usize,
    replacement: usize,
)
    requires
        names.wf(),
        original != 0,
        replacement != 0,
        original != replacement,
    ensures
        ({
            let (console, first) = StartupModel::Idle(names).begin();
            let (lookup, second) = console.console_opened(Ok(()));
            let (install, third) = lookup.symbol_looked_up(Lookup::Found(original));
            let (enable, fourth) = install.redirection_installed(replacement, true);
            let (active, fifth) = enable.redirection_enabled(true);
            &&& first == StartupAction::OpenConsole
            &&& second == StartupAction::Resolve
            &&& third == (StartupAction::Install { original })
            &&& fourth == StartupAction::Enable
            &&& fifth == StartupAction::Finish
            &&& active == StartupModel::Active(
                SymbolModel { module: names.module, symbol: names.symbol, address: original },
                RedirectionModel { original, replacement, enabled: true },
            )
        }),
{
}

/// The first failure ends startup: the error of the step that failed is
/// reported, and from then on no report changes anything or asks for
/// anything.
pub proof fn law_failure_ends_startup(
    error: StartupError,
    console: Result<(), u32>,
    lookup: Lookup,
    replacement: usize,
    hookable: bool,
    activated: bool,
)
    ensures
        StartupModel::failed(error) == (StartupModel::Failed(error), StartupAction::Abort(error)),
        StartupModel::Failed(error).begin() == (StartupModel::Failed(error), StartupAction::Nothing),
        StartupModel::Failed(error).console_opened(console) == (
            StartupModel::Failed(error),
            StartupAction::Nothing,
        ),
        StartupModel::Failed(error).symbol_looked_up(lookup) == (
            StartupModel::Failed(error),
            StartupAction::Nothing,
        ),
        StartupModel::Failed(error).redirection_installed(replacement, hookable) == (
            StartupModel::Failed(error),
            StartupAction::Nothing,
        ),
        StartupModel::Failed(error).redirection_enabled(activated) == (
            StartupModel::Failed(error),
            StartupAction::Nothing,
        ),
{
}

/// The redirection becomes active in one way only: by the report that the
/// backend has put its patch in place, given while that report is awaited.
pub proof fn law_active_only_after_every_step(
    startup: StartupModel,
    console: Result<(), u32>,
    lookup: Lookup,
    replacement: usize,
    hookable: bool,
    activated: bool,
)
    requires
        !(startup is Active),
    ensures
        !(startup.begin().0 is Active),
        !(startup.console_opened(console).0 is Active),
        !(startup.symbol_looked_up(lookup).0 is Active),
        !(startup.redirection_installed(replacement, hookable).0 is Active),
        startup.redirection_enabled(activated).0 is Active ==> startup is Enable && activated,
{
}

/// Startup is well formed from its beginning to its end: whatever is
/// reported, in whatever order, the names that are looked up are clean, the
/// resolved address is not null, the redirection starts at that address and
/// leads elsewhere, and it is active exactly when startup is through.
pub proof fn law_startup_stays_well_formed(
    startup: StartupModel,
    console: Result<(), u32>,
    lookup: Lookup,
    replacement: usize,
    hookable: bool,
    activated: bool,
)
    requires
        startup.wf(),
    ensures
        startup.begin().0.wf(),
        startup.console_opened(console).0.wf(),
        startup.symbol_looked_up(lookup).0.wf(),
        startup.redirection_installed(replacement, hookable).0.wf(),
        startup.redirection_enabled(activated).0.wf(),
{
}

} // verus!
