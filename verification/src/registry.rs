//! The slot that holds the installed sink. It has two states, empty and
//! filled, and one transition, the first install; it is never emptied, and
//! an install on a filled slot is refused and changes nothing.

use vstd::prelude::*;
use vstd::string::StringExecFns;

use crate::logger::{written, Emission, Logger, Stream};
use crate::severity::Severity;

verus! {

/// The answer to an install on a slot that is already filled.
#[derive(Clone, Copy, Debug, PartialEq, Eq, Structural)]
pub struct AlreadyInstalled;

impl AlreadyInstalled {
    /// The text under which a refused install is reported.
    pub open spec fn message_text() -> Seq<char> {
        "Logger initialized twice"@
    }

    /// The severity under which a refused install is reported.
    pub fn severity(&self) -> (level: Severity)
        ensures
            level == Severity::Debug,
    {
        Severity::Debug
    }

    /// The text under which a refused install is reported.
    pub fn message(&self) -> (text: String)
        ensures
            text@ == Self::message_text(),
    {
        String::from_str("Logger initialized twice")
    }
}

/// The slot after an install: filled with `logger` where it was empty,
/// unchanged where it was filled.
pub open spec fn after_install(slot: Option<Logger>, logger: Logger) -> Option<Logger> {
    match slot {
        None => Some(logger),
        Some(_) => slot,
    }
}

/// What a slot writes for a record under the given label: nothing while it
/// is empty, else what its sink writes.
pub open spec fn slot_emission_with(
    slot: Option<Logger>,
    level: Severity,
    label: Seq<char>,
    message: Seq<char>,
) -> Option<(Stream, Seq<char>)> {
    match slot {
        None => None,
        Some(sink) => sink.emission_with(level, label, message),
    }
}

/// The slot for the sink. Its view is the sink it holds, if any.
#[derive(Debug)]
pub struct Registry {
    sink: Option<Logger>,
}

impl View for Registry {
    type V = Option<Logger>;

    closed spec fn view(&self) -> Option<Logger> {
        self.sink
    }
}

impl Registry {
    /// An empty slot.
    pub fn new() -> (registry: Registry)
        ensures
            registry@ is None,
    {
        Registry { sink: None }
    }

    /// Whether a sink is installed.
    pub fn is_installed(&self) -> (b: bool)
        ensures
            b == (self@ is Some),
    {
        self.sink.is_some()
    }

    /// The installed sink.
    pub fn sink(&self) -> (sink: Option<&Logger>)
        ensures
            match sink {
                Some(logger) => self@ == Some(*logger),
                None => self@ is None,
            },
    {
        self.sink.as_ref()
    }

    /// Installs `logger` where the slot is empty. Where it is filled, the
    /// slot stays as it is and `logger` is dropped.
    pub fn install(&mut self, logger: Logger) -> (result: Result<(), AlreadyInstalled>)
        ensures
            final(self)@ == after_install(old(self)@, logger),
            result is Ok <==> old(self)@ is None,
    {
        if self.sink.is_some() {
            Err(AlreadyInstalled)
        } else {
            self.sink = Some(logger);
            Ok(())
        }
    }

    /// Decides on a record under the given label: `None` while no sink is
    /// installed, else what the sink decides.
    pub fn emit(&self, level: Severity, label: &str, message: &str) -> (out: Option<Emission>)
        ensures
            written(out) == slot_emission_with(self@, level, label@, message@),
    {
        match &self.sink {
            Some(sink) => sink.emit(level, label, message),
            None => None,
        }
    }

    /// Decides on a record of this level: `None` while no sink is installed,
    /// else what the sink decides.
    pub fn log(&self, level: Severity, message: &str) -> (out: Option<Emission>)
        ensures
            match self@ {
                Some(sink) => sink.is_emission_of(level, message@, written(out)),
                None => out is None,
            },
    {
        match &self.sink {
            Some(sink) => sink.log(level, message),
            None => None,
        }
    }
}

/// An install on a filled slot changes nothing: after a first install, the
/// sink is the same whatever is installed next, and so is everything it
/// writes.
pub proof fn lemma_later_install_is_discarded(slot: Option<Logger>, first: Logger, second: Logger)
    ensures
        after_install(slot, first) is Some,
        after_install(after_install(slot, first), second) == after_install(slot, first),
        after_install(None, first) == Some(first),
        forall|level: Severity, label: Seq<char>, message: Seq<char>|
            slot_emission_with(
                after_install(after_install(slot, first), second),
                level,
                label,
                message,
            ) == #[trigger] slot_emission_with(after_install(slot, first), level, label, message),
{
}

} // verus!
