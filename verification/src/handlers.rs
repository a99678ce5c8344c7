//! Overridable handlers: the built-in fallbacks that are bound weakly, and
//! the rule by which a strong definition of the embedding program replaces
//! them when the image is linked.

use vstd::prelude::*;
use crate::boot::Action;

verus! {

/// The handler names that an embedding program may define itself.
#[derive(Clone, Copy, Debug, PartialEq, Eq, Structural)]
pub enum Symbol {
    /// The handler behind every interrupt vector that was left unpopulated.
    DefaultHandler,
    /// The handler that takes over when a fatal condition is reported.
    FatalHandler,
}

/// Build-time switches of the runtime.
#[derive(Clone, Copy, Debug, PartialEq, Eq, Structural)]
pub struct Config {
    /// Emit the built-in fatal handler. Where it is off, the embedding
    /// program has to define the fatal handler.
    pub install_default_panic: bool,
}

/// A way in which a handler name cannot be bound.
#[derive(Clone, Copy, Debug, PartialEq, Eq, Structural)]
pub enum LinkError {
    /// Nothing defines the name.
    Undefined,
    /// More than one strong definition of the name was supplied.
    DuplicateDefinition,
}

/// Whether the runtime emits a weak definition of `symbol` under `config`.
pub open spec fn emitted(config: Config, symbol: Symbol) -> bool {
    symbol == Symbol::DefaultHandler || config.install_default_panic
}

/// The weak definition of `symbol` that the runtime contributes under
/// `config`, where `builtin` is the address of its built-in handler.
pub open spec fn fallback(config: Config, symbol: Symbol, builtin: u16) -> Option<u16> {
    if emitted(config, symbol) {
        Some(builtin)
    } else {
        None
    }
}

/// The address that a handler name is bound to, given the weak definition
/// of the runtime, if any, and the strong definitions of the embedding
/// program: the strong definition where there is exactly one, the weak one
/// where there is none.
pub open spec fn resolved(weak: Option<u16>, strong: Seq<u16>) -> Result<u16, LinkError> {
    if strong.len() > 1 {
        Err(LinkError::DuplicateDefinition)
    } else if strong.len() == 1 {
        Ok(strong[0])
    } else {
        match weak {
            Some(address) => Ok(address),
            None => Err(LinkError::Undefined),
        }
    }
}

/// What a built-in handler does when it gets control: it clears the
/// interrupt enable flag and loops forever, whichever name it stands for.
pub open spec fn builtin_behaviour(symbol: Symbol) -> Action {
    Action::MaskInterruptsAndSpin
}

/// Tells what the built-in handler for `symbol` does.
pub fn builtin_action(symbol: Symbol) -> (action: Action)
    ensures
        action == builtin_behaviour(symbol),
{
    Action::MaskInterruptsAndSpin
}

/// The weak definition that the runtime contributes for `symbol`.
pub fn weak_definition(config: &Config, symbol: Symbol, builtin: u16) -> (weak: Option<u16>)
    ensures
        weak == fallback(*config, symbol, builtin),
{
    match symbol {
        Symbol::DefaultHandler => Some(builtin),
        Symbol::FatalHandler => if config.install_default_panic {
            Some(builtin)
        } else {
            None
        },
    }
}

/// Binds a handler name as the linker does.
pub fn resolve(weak: Option<u16>, strong: &Vec<u16>) -> (bound: Result<u16, LinkError>)
    ensures
        bound == resolved(weak, strong@),
{
    if strong.len() > 1 {
        Err(LinkError::DuplicateDefinition)
    } else if strong.len() == 1 {
        Ok(strong[0])
    } else {
        match weak {
            Some(address) => Ok(address),
            None => Err(LinkError::Undefined),
        }
    }
}

/// A strong definition always wins over the weak one, and binding fails
/// exactly where there are several strong definitions or no definition.
pub proof fn lemma_strong_definition_preferred(weak: Option<u16>, strong: Seq<u16>)
    ensures
        strong.len() == 1 ==> resolved(weak, strong) == Ok::<u16, LinkError>(strong[0]),
        strong.len() == 0 && weak is Some ==> resolved(weak, strong) == Ok::<u16, LinkError>(
            weak->0,
        ),
        resolved(weak, strong) is Err <==> strong.len() > 1 || (strong.len() == 0 && weak is None),
{
}

/// The default handler can always be bound unless it is defined twice, and
/// the fatal handler can be left to the embedding program only if that
/// program defines it.
pub proof fn lemma_configured_binding(config: Config, builtin: u16, strong: Seq<u16>)
    ensures
        resolved(fallback(config, Symbol::DefaultHandler, builtin), strong) is Ok <==> strong.len()
            <= 1,
        resolved(fallback(config, Symbol::FatalHandler, builtin), strong) is Ok <==> strong.len()
            == 1 || (strong.len() == 0 && config.install_default_panic),
{
}

} // verus!
