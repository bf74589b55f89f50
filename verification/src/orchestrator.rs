//! Dump orchestration policy: resolving user configuration into a concrete
//! execution plan (transaction isolation level, output sink, progress
//! indicator).  The decisions are pure; opening files, connecting to the
//! database and invoking the external dump utility happen outside the
//! library, driven by the plan resolved here.

use vstd::prelude::*;

verus! {

/// The transaction choice a user may configure for the export run.
#[derive(Clone, Copy, Debug, PartialEq, Eq, Structural)]
pub enum TransactionConfig {
    NoTransaction,
    ReadUncommitted,
    ReadCommitted,
    RepeatableRead,
    Serializable,
}

/// Standard SQL isolation levels the export transaction can request.
#[derive(Clone, Copy, Debug, PartialEq, Eq, Structural)]
pub enum IsolationLevel {
    ReadUncommitted,
    ReadCommitted,
    RepeatableRead,
    Serializable,
}

impl Default for TransactionConfig {
    /// Absent an explicit choice, the export runs under read-committed
    /// isolation.
    fn default() -> (r: Self)
        ensures
            r == TransactionConfig::ReadCommitted,
    {
        TransactionConfig::ReadCommitted
    }
}

/// The fixed, total mapping from configured transaction choice to requested
/// isolation level: `NoTransaction` asks for no wrapping transaction at all,
/// every other choice maps one-to-one onto the standard level of the same
/// name.
pub open spec fn spec_isolation_level(config: TransactionConfig) -> Option<IsolationLevel> {
    match config {
        TransactionConfig::NoTransaction => None,
        TransactionConfig::ReadUncommitted => Some(IsolationLevel::ReadUncommitted),
        TransactionConfig::ReadCommitted => Some(IsolationLevel::ReadCommitted),
        TransactionConfig::RepeatableRead => Some(IsolationLevel::RepeatableRead),
        TransactionConfig::Serializable => Some(IsolationLevel::Serializable),
    }
}

/// Resolve the configured transaction choice into the isolation level the
/// export executor is asked to establish.  Total: every choice has exactly
/// one defined outcome and there is no error path.
pub fn dump_isolation_level(config: TransactionConfig) -> (r: Option<IsolationLevel>)
    ensures
        r == spec_isolation_level(config),
{
    match config {
        TransactionConfig::NoTransaction => None,
        TransactionConfig::ReadUncommitted => Some(IsolationLevel::ReadUncommitted),
        TransactionConfig::ReadCommitted => Some(IsolationLevel::ReadCommitted),
        TransactionConfig::RepeatableRead => Some(IsolationLevel::RepeatableRead),
        TransactionConfig::Serializable => Some(IsolationLevel::Serializable),
    }
}

/// The isolation mapping written out value by value: each of the five
/// configuration choices resolves exactly as the policy table says, and the
/// default configuration resolves to read-committed.
pub proof fn lemma_isolation_mapping()
    ensures
        spec_isolation_level(TransactionConfig::NoTransaction) is None,
        spec_isolation_level(TransactionConfig::ReadUncommitted)
            == Some(IsolationLevel::ReadUncommitted),
        spec_isolation_level(TransactionConfig::ReadCommitted)
            == Some(IsolationLevel::ReadCommitted),
        spec_isolation_level(TransactionConfig::RepeatableRead)
            == Some(IsolationLevel::RepeatableRead),
        spec_isolation_level(TransactionConfig::Serializable)
            == Some(IsolationLevel::Serializable),
{
}

/// Which transaction choice a configuration name denotes; names outside the
/// five enumerated ones denote nothing.
pub open spec fn spec_transaction_config_of_name(name: Seq<char>) -> Option<TransactionConfig> {
    if name == "NoTransaction"@ {
        Some(TransactionConfig::NoTransaction)
    } else if name == "ReadUncommitted"@ {
        Some(TransactionConfig::ReadUncommitted)
    } else if name == "ReadCommitted"@ {
        Some(TransactionConfig::ReadCommitted)
    } else if name == "RepeatableRead"@ {
        Some(TransactionConfig::RepeatableRead)
    } else if name == "Serializable"@ {
        Some(TransactionConfig::Serializable)
    } else {
        None
    }
}

/// Where the export stream goes: a destination file created fresh for this
/// run — creation must fail if the path already exists — or the process's
/// standard output.
#[derive(Debug, PartialEq, Eq)]
pub enum SinkChoice {
    DestinationFile(String),
    Stdout,
}

/// How progress is reported: an interactive console indicator, or nothing
/// at all.  Progress text must never be interleaved with the streamed dump
/// data.
#[derive(Clone, Copy, Debug, PartialEq, Eq, Structural)]
pub enum IndicatorChoice {
    Console,
    Silent,
}

/// The user-facing configuration the orchestrator resolves: an optional
/// destination path, the transaction choice, where the external dump
/// utility lives, the arguments passed through to it, and the transport
/// policies the connector applies.
pub struct DumpOptions {
    pub file: Option<String>,
    pub dump_transaction: TransactionConfig,
    pub pg_dump_location: String,
    pub pg_dump_args: Vec<String>,
    pub accept_invalid_hostnames: bool,
    pub accept_invalid_certs: bool,
}

/// The fully resolved execution plan handed to the export run: the chosen
/// sink, the matching progress indicator, the requested isolation level,
/// and the pass-through utility configuration.
pub struct DumpPlan {
    pub sink: SinkChoice,
    pub indicator: IndicatorChoice,
    pub isolation_level: Option<IsolationLevel>,
    pub pg_dump_location: String,
    pub pg_dump_args: Vec<String>,
}

/// Resolve configuration into a concrete execution plan.  A configured
/// destination path selects a newly created file with the interactive
/// indicator; no path selects standard output with the silent indicator,
/// so no progress text can corrupt the streamed data.  The isolation level
/// follows the fixed mapping, and the utility location and arguments pass
/// through unchanged.
pub fn resolve_plan(options: DumpOptions) -> (plan: DumpPlan)
    ensures
        (match options.file {
            Some(path) => plan.sink == SinkChoice::DestinationFile(path) && plan.indicator
                == IndicatorChoice::Console,
            None => plan.sink == SinkChoice::Stdout && plan.indicator == IndicatorChoice::Silent,
        }),
        plan.isolation_level == spec_isolation_level(options.dump_transaction),
        plan.pg_dump_location == options.pg_dump_location,
        plan.pg_dump_args == options.pg_dump_args,
{
    let isolation_level = dump_isolation_level(options.dump_transaction);
    let (sink, indicator) = match options.file {
        Some(path) => (SinkChoice::DestinationFile(path), IndicatorChoice::Console),
        None => (SinkChoice::Stdout, IndicatorChoice::Silent),
    };
    DumpPlan {
        sink,
        indicator,
        isolation_level,
        pg_dump_location: options.pg_dump_location,
        pg_dump_args: options.pg_dump_args,
    }
}

impl TransactionConfig {
    /// Parse a configured transaction name, as it appears on the command
    /// line, into the corresponding choice.
    pub fn from_name(name: &str) -> (r: Option<TransactionConfig>)
        ensures
            r == spec_transaction_config_of_name(name@),
    {
        let n = name.to_owned();
        if n.eq(&"NoTransaction".to_owned()) {
            Some(TransactionConfig::NoTransaction)
        } else if n.eq(&"ReadUncommitted".to_owned()) {
            Some(TransactionConfig::ReadUncommitted)
        } else if n.eq(&"ReadCommitted".to_owned()) {
            Some(TransactionConfig::ReadCommitted)
        } else if n.eq(&"RepeatableRead".to_owned()) {
            Some(TransactionConfig::RepeatableRead)
        } else if n.eq(&"Serializable".to_owned()) {
            Some(TransactionConfig::Serializable)
        } else {
            None
        }
    }
}

} // verus!
