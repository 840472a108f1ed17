//! Builder for the SPL Token `Approve` instruction: it accumulates the
//! payer, delegate, source account and amount, resolves the effective
//! spending authority (single owner or multisig), and assembles, signs and
//! submits one transaction through a [`litesvm::LiteSVM`] runtime.

pub mod sdk;

pub mod approve;

pub use approve::Approve;
