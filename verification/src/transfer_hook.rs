//! A transfer hook: a rule attached to an asset that each transfer of the
//! asset has to pass. The rule is one of four kinds, picked by the hook's
//! configuration.

use crate::identity::{contains_identity, Identity};
use vstd::prelude::*;
use vstd::string::StringExecFns;

verus! {

/// Why a hook refused a transfer or a change of its configuration.
#[derive(Clone, Copy, Debug, PartialEq, Eq, Structural)]
pub enum TransferHookError {
    /// The hook is switched off.
    HookNotActive,
    /// The destination is not on the hook's whitelist.
    NotWhitelisted,
    /// The amount is above the most a single transfer may move.
    AmountExceedsLimit,
    /// Too much was moved within the rate-limit window.
    RateLimitExceeded,
    /// The amount breaks a compliance rule.
    ComplianceViolation,
    /// The caller is not the hook authority.
    Unauthorized,
}

impl TransferHookError {
    /// The text of the message that goes with each failure.
    pub open spec fn message_text(self) -> Seq<char> {
        match self {
            TransferHookError::HookNotActive => "Transfer hook is not active"@,
            TransferHookError::NotWhitelisted => "Destination address not whitelisted"@,
            TransferHookError::AmountExceedsLimit => "Transfer amount exceeds limit"@,
            TransferHookError::RateLimitExceeded => "Rate limit exceeded"@,
            TransferHookError::ComplianceViolation => "Compliance violation"@,
            TransferHookError::Unauthorized => "Unauthorized"@,
        }
    }

    /// A short message for the failure.
    pub fn message(&self) -> (text: &'static str)
        ensures
            text@ == self.message_text(),
    {
        match self {
            TransferHookError::HookNotActive => "Transfer hook is not active",
            TransferHookError::NotWhitelisted => "Destination address not whitelisted",
            TransferHookError::AmountExceedsLimit => "Transfer amount exceeds limit",
            TransferHookError::RateLimitExceeded => "Rate limit exceeded",
            TransferHookError::ComplianceViolation => "Compliance violation",
            TransferHookError::Unauthorized => "Unauthorized",
        }
    }
}

/// The kind of rule a hook applies.
#[derive(Clone, Copy, Debug, PartialEq, Eq, Structural)]
pub enum HookType {
    /// Only whitelisted destinations may receive.
    Whitelist,
    /// The parties have to be known. No check is made: every transfer passes.
    KYC,
    /// A single transfer may move at most a fixed amount.
    RateLimit,
    /// The amount has to satisfy a list of rules.
    Compliance,
}

/// One compliance rule. A rule of type `max_amount` caps the amount at
/// `value`, one of type `min_amount` asks for at least `value`, and a rule of
/// any other type asks for nothing.
#[derive(Clone, Debug)]
pub struct ComplianceRule {
    pub rule_type: String,
    pub parameter: String,
    pub value: u64,
}

/// The configuration of a hook. `hook_type` picks the rule; the other fields
/// hold what the rules read.
#[derive(Clone, Debug)]
pub struct HookConfig {
    pub hook_type: HookType,
    pub whitelist: Vec<Identity>,
    pub max_transfer_amount: u64,
    /// Length of the rate-limit window, in seconds.
    pub rate_limit_window: i64,
    pub rate_limit_amount: u64,
    pub compliance_rules: Vec<ComplianceRule>,
}

/// The record of a hook, for one asset.
#[derive(Clone, Debug)]
pub struct HookAccount {
    /// Who may change the configuration.
    pub authority: Identity,
    pub config: HookConfig,
    /// Every transfer is refused while this is false.
    pub is_active: bool,
}

/// Whether `amount` satisfies `rule`.
pub open spec fn rule_satisfied(rule: ComplianceRule, amount: u64) -> bool {
    if rule.rule_type@ == "max_amount"@ {
        amount <= rule.value
    } else if rule.rule_type@ == "min_amount"@ {
        amount >= rule.value
    } else {
        true
    }
}

/// Whether `amount` satisfies every rule of the list.
pub open spec fn rules_satisfied(rules: Seq<ComplianceRule>, amount: u64) -> bool {
    forall|i: int| 0 <= i < rules.len() ==> #[trigger] rule_satisfied(rules[i], amount)
}

/// What the hook answers to a transfer of `amount` to `destination`.
pub open spec fn hook_verdict(hook: HookAccount, destination: Identity, amount: u64) -> Result<
    (),
    TransferHookError,
> {
    if !hook.is_active {
        Err(TransferHookError::HookNotActive)
    } else {
        match hook.config.hook_type {
            HookType::Whitelist => if hook.config.whitelist@.contains(destination) {
                Ok(())
            } else {
                Err(TransferHookError::NotWhitelisted)
            },
            HookType::KYC => Ok(()),
            HookType::RateLimit => if amount <= hook.config.max_transfer_amount {
                Ok(())
            } else {
                Err(TransferHookError::AmountExceedsLimit)
            },
            HookType::Compliance => if rules_satisfied(hook.config.compliance_rules@, amount) {
                Ok(())
            } else {
                Err(TransferHookError::ComplianceViolation)
            },
        }
    }
}

/// Creates the record of a hook, switched on.
pub fn initialize_hook(authority: Identity, config: HookConfig) -> (hook_account: HookAccount)
    ensures
        hook_account == (HookAccount { authority, config, is_active: true }),
{
    HookAccount { authority, config, is_active: true }
}

/// Puts a transfer of `amount` to `destination` to the hook.
///
/// A hook that is switched off refuses everything. Otherwise the rule that
/// the configuration picks decides.
pub fn execute(hook_account: &HookAccount, destination: &Identity, amount: u64) -> (result: Result<
    (),
    TransferHookError,
>)
    ensures
        result == hook_verdict(*hook_account, *destination, amount),
{
    if !hook_account.is_active {
        return Err(TransferHookError::HookNotActive);
    }
    match hook_account.config.hook_type {
        HookType::Whitelist => execute_whitelist_hook(&hook_account.config, destination),
        HookType::KYC => execute_kyc_hook(),
        HookType::RateLimit => execute_rate_limit_hook(&hook_account.config, amount),
        HookType::Compliance => execute_compliance_hook(&hook_account.config, amount),
    }
}

/// Replaces the configuration of a hook. Only the hook authority may do so.
pub fn update_config(hook_account: &mut HookAccount, caller: &Identity, new_config: HookConfig) -> (result:
    Result<(), TransferHookError>)
    ensures
        *caller == old(hook_account).authority ==> result == Ok::<(), TransferHookError>(())
            && *final(hook_account) == (HookAccount { config: new_config, ..*old(hook_account) }),
        *caller != old(hook_account).authority ==> result == Err::<(), TransferHookError>(
            TransferHookError::Unauthorized,
        ) && *final(hook_account) == *old(hook_account),
{
    if *caller != hook_account.authority {
        return Err(TransferHookError::Unauthorized);
    }
    hook_account.config = new_config;
    Ok(())
}

/// The whitelist rule: the destination has to be on the list.
pub fn execute_whitelist_hook(config: &HookConfig, destination: &Identity) -> (result: Result<
    (),
    TransferHookError,
>)
    ensures
        result == (if config.whitelist@.contains(*destination) {
            Ok::<(), TransferHookError>(())
        } else {
            Err::<(), TransferHookError>(TransferHookError::NotWhitelisted)
        }),
{
    if contains_identity(config.whitelist.as_slice(), destination) {
        Ok(())
    } else {
        Err(TransferHookError::NotWhitelisted)
    }
}

/// The know-your-customer rule: no check is made, every transfer passes.
pub fn execute_kyc_hook() -> (result: Result<(), TransferHookError>)
    ensures
        result == Ok::<(), TransferHookError>(()),
{
    Ok(())
}

/// The rate-limit rule: a transfer may move at most `max_transfer_amount`.
pub fn execute_rate_limit_hook(config: &HookConfig, amount: u64) -> (result: Result<
    (),
    TransferHookError,
>)
    ensures
        result == (if amount <= config.max_transfer_amount {
            Ok::<(), TransferHookError>(())
        } else {
            Err::<(), TransferHookError>(TransferHookError::AmountExceedsLimit)
        }),
{
    if amount <= config.max_transfer_amount {
        Ok(())
    } else {
        Err(TransferHookError::AmountExceedsLimit)
    }
}

/// The compliance rule: the amount has to satisfy every rule of the list.
pub fn execute_compliance_hook(config: &HookConfig, amount: u64) -> (result: Result<
    (),
    TransferHookError,
>)
    ensures
        result == (if rules_satisfied(config.compliance_rules@, amount) {
            Ok::<(), TransferHookError>(())
        } else {
            Err::<(), TransferHookError>(TransferHookError::ComplianceViolation)
        }),
{
    let max_amount: String = String::from_str("max_amount");
    let min_amount: String = String::from_str("min_amount");
    let mut i: usize = 0;
    while i < config.compliance_rules.len()
        invariant
            i <= config.compliance_rules.len(),
            max_amount@ == "max_amount"@,
            min_amount@ == "min_amount"@,
            forall|k: int| 0 <= k < i ==> #[trigger] rule_satisfied(config.compliance_rules@[k], amount),
        decreases config.compliance_rules.len() - i,
    {
        let rule: &ComplianceRule = &config.compliance_rules[i];
        if rule.rule_type == max_amount {
            if amount > rule.value {
                assert(!rule_satisfied(config.compliance_rules@[i as int], amount));
                return Err(TransferHookError::ComplianceViolation);
            }
        } else if rule.rule_type == min_amount {
            if amount < rule.value {
                assert(!rule_satisfied(config.compliance_rules@[i as int], amount));
                return Err(TransferHookError::ComplianceViolation);
            }
        }
        i += 1;
    }
    Ok(())
}

} // verus!
