use vstd::prelude::*;

verus! {

/// What a run does with the registry of codes.
#[derive(PartialEq, Eq, Structural, Clone, Copy, Debug)]
pub enum Mode {
    /// Every code must already have its registry entry.
    Check,
    /// Every code's record is written to the registry.
    Generate,
}

/// A configuration field that the transform needs.
#[derive(PartialEq, Eq, Structural, Clone, Copy, Debug)]
pub enum ConfigField {
    CommitHash,
    FilePath,
    Mode,
}

/// Why a compilation unit cannot be transformed. Each of them aborts the whole
/// unit.
#[derive(Debug)]
pub enum TransformError {
    /// A configuration field is absent.
    MissingConfig(ConfigField),
    /// The mode is neither `check` nor `generate`; it holds the value given.
    UnknownMode(String),
    /// Check mode found no registry entry for a key; it holds the key.
    RegistryMissing(String),
    /// Writing a registry entry failed on every attempt; it holds the last cause.
    WriteFailed(String),
}

/// The configuration key of a field.
pub open spec fn field_name(f: ConfigField) -> Seq<char> {
    match f {
        ConfigField::CommitHash => "commitHash"@,
        ConfigField::FilePath => "filePath"@,
        ConfigField::Mode => "mode"@,
    }
}

/// The message that reports an error to the operator.
pub open spec fn description_of(e: TransformError) -> Seq<char> {
    match e {
        TransformError::MissingConfig(f) => field_name(f) + " not found in config"@,
        TransformError::UnknownMode(m) => "Mode must be 'check' or 'generate', got '"@ + m@ + "'"@,
        TransformError::RegistryMissing(k) => "ERROR: File /packages/next/error_codes/"@ + k@
            + ".json does not exist.\n\nREQUIRED ACTION:\n1. Run `pnpm build`\n2. Commit all file changes from /packages/next/error-codes\n\nThis is required to maintain error code consistency."@,
        TransformError::WriteFailed(c) => "Failed to write error metadata after 3 attempts: "@ + c@,
    }
}

impl TransformError {
    /// The message that reports this error to the operator; a missing registry
    /// entry comes with the steps that restore it.
    pub fn describe(&self) -> (r: String)
        ensures
            r@ == description_of(*self),
    {
        match self {
            TransformError::MissingConfig(f) => {
                let mut r = match f {
                    ConfigField::CommitHash => String::from_str("commitHash"),
                    ConfigField::FilePath => String::from_str("filePath"),
                    ConfigField::Mode => String::from_str("mode"),
                };
                r.append(" not found in config");
                r
            },
            TransformError::UnknownMode(m) => {
                let mut r = String::from_str("Mode must be 'check' or 'generate', got '");
                r.append(m.as_str());
                r.append("'");
                r
            },
            TransformError::RegistryMissing(k) => {
                let mut r = String::from_str("ERROR: File /packages/next/error_codes/");
                r.append(k.as_str());
                r.append(
                    ".json does not exist.\n\nREQUIRED ACTION:\n1. Run `pnpm build`\n2. Commit all file changes from /packages/next/error-codes\n\nThis is required to maintain error code consistency.",
                );
                r
            },
            TransformError::WriteFailed(c) => {
                let mut r = String::from_str("Failed to write error metadata after 3 attempts: ");
                r.append(c.as_str());
                r
            },
        }
    }
}

/// How many times a registry entry is written before the run gives up.
pub const MAX_WRITE_ATTEMPTS: u32 = 3;

/// What follows one attempt to write a registry entry.
#[derive(PartialEq, Eq, Structural, Clone, Copy, Debug)]
pub enum WriteStep {
    /// The entry is written.
    Done,
    /// The attempt failed and another one is due.
    Retry,
    /// The attempt failed and it was the last: the run aborts.
    Abort,
}

/// The step after an attempt, where `failures_before` attempts failed before it.
pub open spec fn write_step(failures_before: nat, ok: bool) -> WriteStep {
    if ok {
        WriteStep::Done
    } else if failures_before + 1 < MAX_WRITE_ATTEMPTS {
        WriteStep::Retry
    } else {
        WriteStep::Abort
    }
}

/// Where a run of attempts with the given outcomes ends, `failures` attempts
/// having failed before them; `Retry` where the outcomes run out first.
pub open spec fn write_run(outcomes: Seq<bool>, failures: nat) -> WriteStep
    decreases outcomes.len(),
{
    if outcomes.len() == 0 {
        WriteStep::Retry
    } else {
        match write_step(failures, outcomes[0]) {
            WriteStep::Retry => write_run(outcomes.drop_first(), failures + 1),
            s => s,
        }
    }
}

/// `failed` failures in a row.
pub open spec fn failures(failed: nat) -> Seq<bool> {
    Seq::new(failed, |i: int| false)
}

/// Decides what follows one attempt to write a registry entry.
pub fn after_write_attempt(failures_before: u32, ok: bool) -> (r: WriteStep)
    requires
        failures_before < MAX_WRITE_ATTEMPTS,
    ensures
        r == write_step(failures_before as nat, ok),
{
    if ok {
        WriteStep::Done
    } else if failures_before + 1 < MAX_WRITE_ATTEMPTS {
        WriteStep::Retry
    } else {
        WriteStep::Abort
    }
}

proof fn lemma_failures_then(k: nat, f: nat, tail: Seq<bool>)
    requires
        f + k < MAX_WRITE_ATTEMPTS,
    ensures
        write_run(failures(k) + tail, f) == write_run(tail, f + k),
    decreases k,
{
    if k > 0 {
        let s = failures(k) + tail;
        assert(s[0] == false);
        assert(s.drop_first() =~= failures((k - 1) as nat) + tail);
        lemma_failures_then((k - 1) as nat, f + 1, tail);
    }
}

/// Up to two failed writes in a row are retried: a write that then succeeds
/// ends the run with the entry written.
pub proof fn lemma_write_survives_two_failures(k: nat, rest: Seq<bool>)
    requires
        k < MAX_WRITE_ATTEMPTS,
    ensures
        write_run(failures(k) + seq![true] + rest, 0) == WriteStep::Done,
{
    lemma_failures_then(k, 0, seq![true] + rest);
    assert(failures(k) + seq![true] + rest =~= failures(k) + (seq![true] + rest));
}

/// The third failed write in a row aborts the run, whatever would follow.
pub proof fn lemma_write_aborts_after_three_failures(rest: Seq<bool>)
    ensures
        write_run(failures(MAX_WRITE_ATTEMPTS as nat) + rest, 0) == WriteStep::Abort,
{
    let s = failures(3) + rest;
    lemma_failures_then(2, 0, failures(1) + rest);
    assert(s =~= failures(2) + (failures(1) + rest));
    assert((failures(1) + rest)[0] == false);
}

/// The mode named by a configuration value: `check` or `generate`.
pub fn parse_mode(value: &String) -> (r: Result<Mode, TransformError>)
    ensures
        value@ == "check"@ <==> r == Ok::<Mode, TransformError>(Mode::Check),
        value@ == "generate"@ <==> r == Ok::<Mode, TransformError>(Mode::Generate),
        r is Err <==> value@ != "check"@ && value@ != "generate"@,
        r matches Err(e) ==> e matches TransformError::UnknownMode(v) && v@ == value@,
{
    let check = String::from_str("check");
    let generate = String::from_str("generate");
    proof {
        reveal_strlit("check");
        reveal_strlit("generate");
        assert("check"@[0] != "generate"@[0]);
    }
    if *value == check {
        Ok(Mode::Check)
    } else if *value == generate {
        Ok(Mode::Generate)
    } else {
        Err(TransformError::UnknownMode(value.clone()))
    }
}

/// Check mode: the run goes on only where the registry holds an entry for `key`.
pub fn check_registry(entry_exists: bool, key: &String) -> (r: Result<(), TransformError>)
    ensures
        r is Ok <==> entry_exists,
        r matches Err(e) ==> e matches TransformError::RegistryMissing(k) && k@ == key@,
{
    if entry_exists {
        Ok(())
    } else {
        Err(TransformError::RegistryMissing(key.clone()))
    }
}

} // verus!
