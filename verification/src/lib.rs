//! Credential providers: a credential value, the providers that produce one,
//! an ordered fallback chain over providers, and a caching resolver in front
//! of the chain.
//!
//! The functions of this crate are verified against their contracts. The one
//! thing taken on trust is the calendar arithmetic of `aws_smithy_types`,
//! behind a single wrapper in [`timestamp`].
//!
//! Nothing in here awaits, locks or reads a clock. Callers pass the current
//! time, in seconds since the Unix epoch. A caller that must await its
//! providers drives [`ChainWalk`] and [`ResolverState`], which decide each
//! step and leave the waiting to the caller.

pub mod cache;
pub mod chain;
pub mod credential;
pub mod error;
pub mod provider;
pub mod resolver;
pub mod timestamp;
pub mod walk;

pub use cache::{CacheEntryView, CacheView, CredentialCache, DEFAULT_SAFETY_MARGIN};
pub use chain::{ChainedProvider, Provider};
pub use credential::{Credential, CredentialView};
pub use error::{ProviderError, ProviderErrorView};
pub use provider::{FunctionProvider, StaticProvider};
pub use resolver::{Decision, DecisionView, Resolution, Resolver, ResolverState, ResolverStateView};
pub use timestamp::{date_time_format, format_time, FormattedTime, TimeFormat, TimeFormatError};
pub use walk::{ChainReport, ChainReportView, ChainWalk, WalkStep};
