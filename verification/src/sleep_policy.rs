//! When an instance may be put to sleep.
use vstd::prelude::*;
use vstd::string::*;

use crate::instance::InstanceValues;
use crate::outcome;
use crate::same::Same;
use crate::text;

verus! {

/// How long an instance may idle and how long it may drain.
#[derive(Clone, Copy, Debug, PartialEq, Eq, Structural)]
pub struct ResolvedSleepPolicy {
    pub idle_timeout_ms: u64,
    pub idle_retry_backoff_ms: u64,
    pub drain_grace_timeout_ms: u64,
}

/// What a [`ResolvedSleepPolicy`] holds.
#[verifier::ext_equal]
pub struct ResolvedSleepPolicyView {
    pub idle_timeout_ms: u64,
    pub idle_retry_backoff_ms: u64,
    pub drain_grace_timeout_ms: u64,
}

impl DeepView for ResolvedSleepPolicy {
    type V = ResolvedSleepPolicyView;

    open spec fn deep_view(&self) -> ResolvedSleepPolicyView {
        ResolvedSleepPolicyView {
            idle_timeout_ms: self.idle_timeout_ms.deep_view(),
            idle_retry_backoff_ms: self.idle_retry_backoff_ms.deep_view(),
            drain_grace_timeout_ms: self.drain_grace_timeout_ms.deep_view(),
        }
    }
}

/// An instance value that may replace the idle timeout, within bounds.
#[derive(Debug, PartialEq, Eq)]
pub struct IdleTimeoutOverridePolicy {
    pub value_field: String,
    pub min_idle_timeout_ms: u64,
    pub max_idle_timeout_ms: u64,
}

/// What an [`IdleTimeoutOverridePolicy`] holds.
#[verifier::ext_equal]
pub struct IdleTimeoutOverridePolicyView {
    pub value_field: Seq<char>,
    pub min_idle_timeout_ms: u64,
    pub max_idle_timeout_ms: u64,
}

impl DeepView for IdleTimeoutOverridePolicy {
    type V = IdleTimeoutOverridePolicyView;

    open spec fn deep_view(&self) -> IdleTimeoutOverridePolicyView {
        IdleTimeoutOverridePolicyView {
            value_field: self.value_field.deep_view(),
            min_idle_timeout_ms: self.min_idle_timeout_ms.deep_view(),
            max_idle_timeout_ms: self.max_idle_timeout_ms.deep_view(),
        }
    }
}

impl Clone for IdleTimeoutOverridePolicy {
    fn clone(&self) -> (r: Self)
        ensures
            r.deep_view() == self.deep_view(),
    {
        IdleTimeoutOverridePolicy {
            value_field: self.value_field.clone(),
            min_idle_timeout_ms: self.min_idle_timeout_ms,
            max_idle_timeout_ms: self.max_idle_timeout_ms,
        }
    }
}

impl Same for IdleTimeoutOverridePolicy {
    fn is_same(&self, other: &Self) -> (r: bool) {
        self.value_field.is_same(&other.value_field)
            && self.min_idle_timeout_ms.is_same(&other.min_idle_timeout_ms)
            && self.max_idle_timeout_ms.is_same(&other.max_idle_timeout_ms)
    }
}

/// The sleep policy of a workload class.
#[derive(Debug, PartialEq, Eq)]
pub struct WorkloadSleepPolicy {
    pub idle_timeout_ms: u64,
    pub idle_retry_backoff_ms: u64,
    pub drain_grace_timeout_ms: u64,
    pub idle_timeout_override: Option<IdleTimeoutOverridePolicy>,
}

/// What a [`WorkloadSleepPolicy`] holds.
#[verifier::ext_equal]
pub struct WorkloadSleepPolicyView {
    pub idle_timeout_ms: u64,
    pub idle_retry_backoff_ms: u64,
    pub drain_grace_timeout_ms: u64,
    pub idle_timeout_override: Option<IdleTimeoutOverridePolicyView>,
}

impl DeepView for WorkloadSleepPolicy {
    type V = WorkloadSleepPolicyView;

    open spec fn deep_view(&self) -> WorkloadSleepPolicyView {
        WorkloadSleepPolicyView {
            idle_timeout_ms: self.idle_timeout_ms.deep_view(),
            idle_retry_backoff_ms: self.idle_retry_backoff_ms.deep_view(),
            drain_grace_timeout_ms: self.drain_grace_timeout_ms.deep_view(),
            idle_timeout_override: self.idle_timeout_override.deep_view(),
        }
    }
}

impl Clone for WorkloadSleepPolicy {
    fn clone(&self) -> (r: Self)
        ensures
            r.deep_view() == self.deep_view(),
    {
        let r = WorkloadSleepPolicy {
            idle_timeout_ms: self.idle_timeout_ms,
            idle_retry_backoff_ms: self.idle_retry_backoff_ms,
            drain_grace_timeout_ms: self.drain_grace_timeout_ms,
            idle_timeout_override: self.idle_timeout_override.clone(),
        };
        assert(r.idle_timeout_override.deep_view() =~= self.idle_timeout_override.deep_view());
        r
    }
}

impl Same for WorkloadSleepPolicy {
    fn is_same(&self, other: &Self) -> (r: bool) {
        self.idle_timeout_ms.is_same(&other.idle_timeout_ms)
            && self.idle_retry_backoff_ms.is_same(&other.idle_retry_backoff_ms)
            && self.drain_grace_timeout_ms.is_same(&other.drain_grace_timeout_ms)
            && self.idle_timeout_override.is_same(&other.idle_timeout_override)
    }
}

/// Why a sleep policy, or a value for it, is not accepted.
#[allow(inconsistent_fields)]
#[derive(Debug, PartialEq, Eq)]
pub enum SleepPolicyError {
    ZeroDuration { field: &'static str },
    BlankOverrideField,
    EmptyOverrideRange { min: u64, max: u64 },
    MalformedOverride { field: String, value: String },
    OverrideOutOfRange { field: String, value: u64, min: u64, max: u64 },
}

/// What a [`SleepPolicyError`] holds.
#[allow(inconsistent_fields)]
#[verifier::ext_equal]
pub enum SleepPolicyErrorView {
    ZeroDuration { field: Seq<char> },
    BlankOverrideField,
    EmptyOverrideRange { min: u64, max: u64 },
    MalformedOverride { field: Seq<char>, value: Seq<char> },
    OverrideOutOfRange { field: Seq<char>, value: u64, min: u64, max: u64 },
}

impl DeepView for SleepPolicyError {
    type V = SleepPolicyErrorView;

    open spec fn deep_view(&self) -> SleepPolicyErrorView {
        match self {
            SleepPolicyError::ZeroDuration { field } => SleepPolicyErrorView::ZeroDuration {
                field: field.deep_view(),
            },
            SleepPolicyError::BlankOverrideField => SleepPolicyErrorView::BlankOverrideField,
            SleepPolicyError::EmptyOverrideRange {
                min,
                max,
            } => SleepPolicyErrorView::EmptyOverrideRange {
                min: min.deep_view(),
                max: max.deep_view(),
            },
            SleepPolicyError::MalformedOverride {
                field,
                value,
            } => SleepPolicyErrorView::MalformedOverride {
                field: field.deep_view(),
                value: value.deep_view(),
            },
            SleepPolicyError::OverrideOutOfRange {
                field,
                value,
                min,
                max,
            } => SleepPolicyErrorView::OverrideOutOfRange {
                field: field.deep_view(),
                value: value.deep_view(),
                min: min.deep_view(),
                max: max.deep_view(),
            },
        }
    }
}

impl Clone for SleepPolicyError {
    fn clone(&self) -> (r: Self)
        ensures
            r.deep_view() == self.deep_view(),
    {
        match self {
            SleepPolicyError::ZeroDuration { field } => SleepPolicyError::ZeroDuration {
                field: *field,
            },
            SleepPolicyError::BlankOverrideField => SleepPolicyError::BlankOverrideField,
            SleepPolicyError::EmptyOverrideRange {
                min,
                max,
            } => SleepPolicyError::EmptyOverrideRange {
                min: *min,
                max: *max,
            },
            SleepPolicyError::MalformedOverride {
                field,
                value,
            } => SleepPolicyError::MalformedOverride {
                field: field.clone(),
                value: value.clone(),
            },
            SleepPolicyError::OverrideOutOfRange {
                field,
                value,
                min,
                max,
            } => SleepPolicyError::OverrideOutOfRange {
                field: field.clone(),
                value: *value,
                min: *min,
                max: *max,
            },
        }
    }
}

/// What is shown for a sleep policy error.
pub open spec fn sleep_policy_message(error: SleepPolicyErrorView) -> Seq<char> {
    match error {
        SleepPolicyErrorView::ZeroDuration { field } => field + " must be positive"@,
        SleepPolicyErrorView::BlankOverrideField => {
            "idle timeout override value field must not be empty"@
        },
        SleepPolicyErrorView::EmptyOverrideRange { min, max } => {
            "idle timeout override range "@ + text::decimal(min as nat) + "..="@ + text::decimal(
                max as nat,
            ) + " is invalid"@
        },
        SleepPolicyErrorView::MalformedOverride { field, value } => {
            "idle timeout override value "@ + text::debug_text(field) + "="@ + text::debug_text(
                value,
            ) + " is not a decimal millisecond value"@
        },
        SleepPolicyErrorView::OverrideOutOfRange { field, value, min, max } => {
            "idle timeout override value "@ + text::debug_text(field) + "="@ + text::decimal(
                value as nat,
            ) + " is outside allowed range "@ + text::decimal(min as nat) + "..="@ + text::decimal(
                max as nat,
            )
        },
    }
}

impl SleepPolicyError {
    pub fn to_string(&self) -> (r: String)
        ensures
            r@ == sleep_policy_message(self.deep_view()),
    {
        match self {
            SleepPolicyError::ZeroDuration { field } => text::join2(field, " must be positive"),
            SleepPolicyError::BlankOverrideField => {
                "idle timeout override value field must not be empty".to_owned()
            },
            SleepPolicyError::EmptyOverrideRange { min, max } => {
                let low = text::number(*min);
                let high = text::number(*max);
                text::join5(
                    "idle timeout override range ",
                    low.as_str(),
                    "..=",
                    high.as_str(),
                    " is invalid",
                )
            },
            SleepPolicyError::MalformedOverride { field, value } => {
                let field = text::quoted(field.as_str());
                let value = text::quoted(value.as_str());
                text::join5(
                    "idle timeout override value ",
                    field.as_str(),
                    "=",
                    value.as_str(),
                    " is not a decimal millisecond value",
                )
            },
            SleepPolicyError::OverrideOutOfRange { field, value, min, max } => {
                let field = text::quoted(field.as_str());
                let value = text::number(*value);
                let low = text::number(*min);
                let high = text::number(*max);
                let mut message = text::join5(
                    "idle timeout override value ",
                    field.as_str(),
                    "=",
                    value.as_str(),
                    " is outside allowed range ",
                );
                message.append(low.as_str());
                message.append("..=");
                message.append(high.as_str());
                message
            },
        }
    }
}

/// What is wrong with an override policy.
pub open spec fn override_problem(
    policy: IdleTimeoutOverridePolicyView,
) -> Option<SleepPolicyErrorView> {
    if text::is_blank(policy.value_field) {
        Some(SleepPolicyErrorView::BlankOverrideField)
    } else if policy.min_idle_timeout_ms == 0 || policy.min_idle_timeout_ms
        > policy.max_idle_timeout_ms {
        Some(
            SleepPolicyErrorView::EmptyOverrideRange {
                min: policy.min_idle_timeout_ms,
                max: policy.max_idle_timeout_ms,
            },
        )
    } else {
        None
    }
}

/// What is wrong with a sleep policy.
pub open spec fn policy_problem(policy: WorkloadSleepPolicyView) -> Option<SleepPolicyErrorView> {
    if policy.idle_timeout_ms == 0 {
        Some(SleepPolicyErrorView::ZeroDuration { field: "idle_timeout_ms"@ })
    } else if policy.idle_retry_backoff_ms == 0 {
        Some(SleepPolicyErrorView::ZeroDuration { field: "idle_retry_backoff_ms"@ })
    } else if policy.drain_grace_timeout_ms == 0 {
        Some(SleepPolicyErrorView::ZeroDuration { field: "drain_grace_timeout_ms"@ })
    } else {
        match policy.idle_timeout_override {
            Some(override_policy) => override_problem(override_policy),
            None => None,
        }
    }
}

/// The idle timeout that an instance with these values gets.
pub open spec fn resolved_idle_timeout(
    policy: WorkloadSleepPolicyView,
    values: Map<Seq<char>, Seq<char>>,
) -> Result<u64, SleepPolicyErrorView> {
    match policy.idle_timeout_override {
        Some(bounds) if values.contains_key(bounds.value_field) => {
            let field = bounds.value_field;
            let value = values[field];
            if !text::is_decimal(value) || text::decimal_value(value) > u64::MAX {
                Err(SleepPolicyErrorView::MalformedOverride { field, value })
            } else if text::decimal_value(value) < bounds.min_idle_timeout_ms
                || text::decimal_value(value) > bounds.max_idle_timeout_ms {
                Err(
                    SleepPolicyErrorView::OverrideOutOfRange {
                        field,
                        value: text::decimal_value(value) as u64,
                        min: bounds.min_idle_timeout_ms,
                        max: bounds.max_idle_timeout_ms,
                    },
                )
            } else {
                Ok(text::decimal_value(value) as u64)
            }
        },
        _ => Ok(policy.idle_timeout_ms),
    }
}

/// The sleep policy of an instance with these values.
pub open spec fn resolved_policy(
    policy: WorkloadSleepPolicyView,
    values: Map<Seq<char>, Seq<char>>,
) -> Result<ResolvedSleepPolicyView, SleepPolicyErrorView> {
    match resolved_idle_timeout(policy, values) {
        Ok(idle_timeout_ms) => Ok(
            ResolvedSleepPolicyView {
                idle_timeout_ms,
                idle_retry_backoff_ms: policy.idle_retry_backoff_ms,
                drain_grace_timeout_ms: policy.drain_grace_timeout_ms,
            },
        ),
        Err(error) => Err(error),
    }
}

impl IdleTimeoutOverridePolicy {
    pub fn new(value_field: &str, min_idle_timeout_ms: u64, max_idle_timeout_ms: u64) -> (r: Result<
        Self,
        SleepPolicyError,
    >)
        ensures
            outcome::of(r) == {
                let policy = IdleTimeoutOverridePolicyView {
                    value_field: value_field@,
                    min_idle_timeout_ms,
                    max_idle_timeout_ms,
                };
                match override_problem(policy) {
                    Some(error) => Err(error),
                    None => Ok(policy),
                }
            },
    {
        let policy = IdleTimeoutOverridePolicy {
            value_field: value_field.to_owned(),
            min_idle_timeout_ms,
            max_idle_timeout_ms,
        };
        match policy.validate() {
            Ok(()) => Ok(policy),
            Err(error) => Err(error),
        }
    }

    fn validate(&self) -> (r: Result<(), SleepPolicyError>)
        ensures
            outcome::problem(r) == override_problem(self.deep_view()),
    {
        if text::blank(self.value_field.as_str()) {
            return Err(SleepPolicyError::BlankOverrideField);
        }
        if self.min_idle_timeout_ms == 0 || self.min_idle_timeout_ms > self.max_idle_timeout_ms {
            return Err(
                SleepPolicyError::EmptyOverrideRange {
                    min: self.min_idle_timeout_ms,
                    max: self.max_idle_timeout_ms,
                },
            );
        }
        Ok(())
    }
}

impl WorkloadSleepPolicy {
    pub fn new(
        idle_timeout_ms: u64,
        idle_retry_backoff_ms: u64,
        drain_grace_timeout_ms: u64,
    ) -> (r: Result<Self, SleepPolicyError>)
        ensures
            outcome::of(r) == {
                let policy = WorkloadSleepPolicyView {
                    idle_timeout_ms,
                    idle_retry_backoff_ms,
                    drain_grace_timeout_ms,
                    idle_timeout_override: None,
                };
                match policy_problem(policy) {
                    Some(error) => Err(error),
                    None => Ok(policy),
                }
            },
    {
        let policy = WorkloadSleepPolicy {
            idle_timeout_ms,
            idle_retry_backoff_ms,
            drain_grace_timeout_ms,
            idle_timeout_override: None,
        };
        match policy.validate() {
            Ok(()) => Ok(policy),
            Err(error) => Err(error),
        }
    }

    /// The policy with an override.
    pub fn with_idle_timeout_override(self, override_policy: IdleTimeoutOverridePolicy) -> (r:
        Result<Self, SleepPolicyError>)
        ensures
            outcome::of(r) == {
                let policy = WorkloadSleepPolicyView {
                    idle_timeout_override: Some(override_policy.deep_view()),
                    ..self.deep_view()
                };
                match policy_problem(policy) {
                    Some(error) => Err(error),
                    None => Ok(policy),
                }
            },
    {
        let policy = WorkloadSleepPolicy {
            idle_timeout_ms: self.idle_timeout_ms,
            idle_retry_backoff_ms: self.idle_retry_backoff_ms,
            drain_grace_timeout_ms: self.drain_grace_timeout_ms,
            idle_timeout_override: Some(override_policy),
        };
        match policy.validate() {
            Ok(()) => Ok(policy),
            Err(error) => Err(error),
        }
    }

    pub fn validate(&self) -> (r: Result<(), SleepPolicyError>)
        ensures
            outcome::problem(r) == policy_problem(self.deep_view()),
    {
        if self.idle_timeout_ms == 0 {
            return Err(SleepPolicyError::ZeroDuration { field: "idle_timeout_ms" });
        }
        if self.idle_retry_backoff_ms == 0 {
            return Err(SleepPolicyError::ZeroDuration { field: "idle_retry_backoff_ms" });
        }
        if self.drain_grace_timeout_ms == 0 {
            return Err(SleepPolicyError::ZeroDuration { field: "drain_grace_timeout_ms" });
        }
        match &self.idle_timeout_override {
            Some(override_policy) => override_policy.validate(),
            None => Ok(()),
        }
    }

    /// The policy of an instance: the class's own, or the instance's override.
    pub fn resolve(&self, values: &InstanceValues) -> (r: Result<
        ResolvedSleepPolicy,
        SleepPolicyError,
    >)
        ensures
            outcome::of(r) == resolved_policy(self.deep_view(), values.deep_view()),
    {
        let mut idle_timeout_ms: u64 = self.idle_timeout_ms;
        if let Some(bounds) = &self.idle_timeout_override {
            if let Some(value) = values.get(bounds.value_field.as_str()) {
                match text::parse_decimal(value.as_str()) {
                    None => {
                        return Err(
                            SleepPolicyError::MalformedOverride {
                                field: bounds.value_field.clone(),
                                value: value.clone(),
                            },
                        );
                    },
                    Some(millis) => {
                        if millis < bounds.min_idle_timeout_ms || millis
                            > bounds.max_idle_timeout_ms {
                            return Err(
                                SleepPolicyError::OverrideOutOfRange {
                                    field: bounds.value_field.clone(),
                                    value: millis,
                                    min: bounds.min_idle_timeout_ms,
                                    max: bounds.max_idle_timeout_ms,
                                },
                            );
                        }
                        idle_timeout_ms = millis;
                    },
                }
            }
        }
        Ok(
            ResolvedSleepPolicy {
                idle_timeout_ms,
                idle_retry_backoff_ms: self.idle_retry_backoff_ms,
                drain_grace_timeout_ms: self.drain_grace_timeout_ms,
            },
        )
    }
}

/// The idle timeout of an instance is that of its class, or one of its own within the
/// bounds that the class sets; with a policy that is accepted it is never zero.
pub proof fn lemma_resolved_timeout_is_in_bounds(
    policy: WorkloadSleepPolicyView,
    values: Map<Seq<char>, Seq<char>>,
)
    requires
        policy_problem(policy) is None,
        resolved_policy(policy, values) is Ok,
    ensures
        ({
            let resolved = resolved_policy(policy, values)->Ok_0;
            &&& resolved.idle_timeout_ms > 0
            &&& resolved.idle_timeout_ms != policy.idle_timeout_ms ==> {
                &&& policy.idle_timeout_override matches Some(bounds)
                &&& bounds.min_idle_timeout_ms <= resolved.idle_timeout_ms
                &&& resolved.idle_timeout_ms <= bounds.max_idle_timeout_ms
            }
        }),
{
}

/// The sleep policy of an instance is that of its class in all but the idle timeout, and
/// in that too where the class lets instances set none, or the instance sets none. One
/// that the instance sets counts where it is within the bounds, and is refused where it
/// is not.
pub proof fn lemma_instance_sets_only_its_idle_timeout(
    policy: WorkloadSleepPolicyView,
    values: Map<Seq<char>, Seq<char>>,
    millis: u64,
)
    ensures
        resolved_policy(policy, values) matches Ok(resolved) ==> {
            &&& resolved.idle_retry_backoff_ms == policy.idle_retry_backoff_ms
            &&& resolved.drain_grace_timeout_ms == policy.drain_grace_timeout_ms
        },
        policy.idle_timeout_override is None || !values.contains_key(
            policy.idle_timeout_override->0.value_field,
        ) ==> {
            &&& resolved_policy(policy, values) is Ok
            &&& resolved_policy(policy, values)->Ok_0.idle_timeout_ms == policy.idle_timeout_ms
        },
        policy.idle_timeout_override matches Some(bounds) && values.contains_key(bounds.value_field)
            && values[bounds.value_field] == text::decimal(millis as nat) ==> {
            let bounds = policy.idle_timeout_override->0;
            &&& resolved_policy(policy, values) is Ok <==> bounds.min_idle_timeout_ms <= millis
                <= bounds.max_idle_timeout_ms
            &&& resolved_policy(policy, values) matches Ok(resolved) ==> resolved.idle_timeout_ms
                == millis
            &&& resolved_policy(policy, values) matches Err(error) ==> error
                == SleepPolicyErrorView::OverrideOutOfRange {
                field: bounds.value_field,
                value: millis,
                min: bounds.min_idle_timeout_ms,
                max: bounds.max_idle_timeout_ms,
            }
        },
{
    text::lemma_decimal_round_trip(millis as nat);
}

/// A sleep policy is accepted where none of its times is zero and an override has a field
/// and a range of times above zero.
pub proof fn lemma_policy_needs_times(policy: WorkloadSleepPolicyView)
    ensures
        policy_problem(policy) is None <==> {
            &&& policy.idle_timeout_ms > 0
            &&& policy.idle_retry_backoff_ms > 0
            &&& policy.drain_grace_timeout_ms > 0
            &&& policy.idle_timeout_override matches Some(bounds) ==> {
                &&& !text::is_blank(bounds.value_field)
                &&& 0 < bounds.min_idle_timeout_ms <= bounds.max_idle_timeout_ms
            }
        },
{
}

} // verus!
