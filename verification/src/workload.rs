//! Workload classes and the values that their instances take.
use vstd::prelude::*;
use vstd::string::*;

use crate::ids::Generation;
use crate::ids::WorkloadClassId;
use crate::instance::InstanceValues;
use crate::manifest::template::ManifestTemplate;
use crate::manifest::template::ManifestTemplateView;
use crate::manifest::template::TemplateText;
use crate::manifest::template::TemplateTextPartView;
use crate::manifest::template::WorkloadKind;
use crate::outcome;
use crate::same::Same;
use crate::sleep_policy;
use crate::sleep_policy::SleepPolicyError;
use crate::sleep_policy::SleepPolicyErrorView;
use crate::sleep_policy::WorkloadSleepPolicy;
use crate::sleep_policy::WorkloadSleepPolicyView;
use crate::string_map;
use crate::string_map::StringMap;
use crate::text;

verus! {

/// A version of a workload class.
#[derive(Debug, PartialEq, Eq)]
pub struct WorkloadClassVersionRef {
    pub class_id: WorkloadClassId,
    pub version: Generation,
}

/// What a [`WorkloadClassVersionRef`] holds.
#[verifier::ext_equal]
pub struct WorkloadClassVersionRefView {
    pub class_id: Seq<char>,
    pub version: nat,
}

impl DeepView for WorkloadClassVersionRef {
    type V = WorkloadClassVersionRefView;

    open spec fn deep_view(&self) -> WorkloadClassVersionRefView {
        WorkloadClassVersionRefView {
            class_id: self.class_id.deep_view(),
            version: self.version.deep_view(),
        }
    }
}

impl Clone for WorkloadClassVersionRef {
    fn clone(&self) -> (r: Self)
        ensures
            r.deep_view() == self.deep_view(),
    {
        WorkloadClassVersionRef {
            class_id: self.class_id.clone(),
            version: self.version,
        }
    }
}

impl Same for WorkloadClassVersionRef {
    fn is_same(&self, other: &Self) -> (r: bool) {
        self.class_id.is_same(&other.class_id) && self.version.is_same(&other.version)
    }
}

/// Whether a value must be given, and what it is otherwise.
#[derive(Debug, PartialEq, Eq)]
pub struct WorkloadValueFieldRule {
    pub required: bool,
    pub default: Option<String>,
}

/// What a [`WorkloadValueFieldRule`] holds.
#[verifier::ext_equal]
pub struct WorkloadValueFieldRuleView {
    pub required: bool,
    pub default: Option<Seq<char>>,
}

impl DeepView for WorkloadValueFieldRule {
    type V = WorkloadValueFieldRuleView;

    open spec fn deep_view(&self) -> WorkloadValueFieldRuleView {
        WorkloadValueFieldRuleView {
            required: self.required.deep_view(),
            default: self.default.deep_view(),
        }
    }
}

impl Clone for WorkloadValueFieldRule {
    fn clone(&self) -> (r: Self)
        ensures
            r.deep_view() == self.deep_view(),
    {
        let r = WorkloadValueFieldRule {
            required: self.required,
            default: self.default.clone(),
        };
        assert(r.default.deep_view() =~= self.default.deep_view());
        r
    }
}

impl Same for WorkloadValueFieldRule {
    fn is_same(&self, other: &Self) -> (r: bool) {
        self.required.is_same(&other.required) && self.default.is_same(&other.default)
    }
}

/// The values that instances of a class take.
#[derive(Debug, PartialEq, Eq)]
pub struct WorkloadValueSchema {
    pub fields: StringMap<WorkloadValueFieldRule>,
    pub allow_extra: bool,
}

/// What a [`WorkloadValueSchema`] holds.
#[verifier::ext_equal]
pub struct WorkloadValueSchemaView {
    pub fields: Map<Seq<char>, WorkloadValueFieldRuleView>,
    pub allow_extra: bool,
}

impl DeepView for WorkloadValueSchema {
    type V = WorkloadValueSchemaView;

    open spec fn deep_view(&self) -> WorkloadValueSchemaView {
        WorkloadValueSchemaView {
            fields: self.fields.deep_view(),
            allow_extra: self.allow_extra.deep_view(),
        }
    }
}

impl Clone for WorkloadValueSchema {
    fn clone(&self) -> (r: Self)
        ensures
            r.deep_view() == self.deep_view(),
    {
        let r = WorkloadValueSchema {
            fields: self.fields.clone(),
            allow_extra: self.allow_extra,
        };
        assert(r.fields.deep_view() =~= self.fields.deep_view());
        r
    }
}

impl Same for WorkloadValueSchema {
    fn is_same(&self, other: &Self) -> (r: bool) {
        self.fields.is_same(&other.fields)
            && self.allow_extra.is_same(&other.allow_extra)
    }
}

/// Why instance values do not fit their schema.
#[derive(Debug, PartialEq, Eq)]
pub enum ValueSchemaError {
    MissingRequired { field: String },
    Unknown { field: String },
}

/// What a [`ValueSchemaError`] holds.
#[verifier::ext_equal]
pub enum ValueSchemaErrorView {
    MissingRequired { field: Seq<char> },
    Unknown { field: Seq<char> },
}

impl DeepView for ValueSchemaError {
    type V = ValueSchemaErrorView;

    open spec fn deep_view(&self) -> ValueSchemaErrorView {
        match self {
            ValueSchemaError::MissingRequired { field } => ValueSchemaErrorView::MissingRequired {
                field: field.deep_view(),
            },
            ValueSchemaError::Unknown { field } => ValueSchemaErrorView::Unknown {
                field: field.deep_view(),
            },
        }
    }
}

impl Clone for ValueSchemaError {
    fn clone(&self) -> (r: Self)
        ensures
            r.deep_view() == self.deep_view(),
    {
        match self {
            ValueSchemaError::MissingRequired { field } => ValueSchemaError::MissingRequired {
                field: field.clone(),
            },
            ValueSchemaError::Unknown { field } => ValueSchemaError::Unknown {
                field: field.clone(),
            },
        }
    }
}

/// A key that at most one instance of a target holds.
#[derive(Debug, PartialEq, Eq)]
pub struct RenderedExclusivityKey {
    pub name: String,
    pub value: String,
}

/// What a [`RenderedExclusivityKey`] holds.
#[verifier::ext_equal]
pub struct RenderedExclusivityKeyView {
    pub name: Seq<char>,
    pub value: Seq<char>,
}

impl DeepView for RenderedExclusivityKey {
    type V = RenderedExclusivityKeyView;

    open spec fn deep_view(&self) -> RenderedExclusivityKeyView {
        RenderedExclusivityKeyView {
            name: self.name.deep_view(),
            value: self.value.deep_view(),
        }
    }
}

impl Clone for RenderedExclusivityKey {
    fn clone(&self) -> (r: Self)
        ensures
            r.deep_view() == self.deep_view(),
    {
        RenderedExclusivityKey {
            name: self.name.clone(),
            value: self.value.clone(),
        }
    }
}

/// The template of an exclusivity key.
#[derive(Debug, PartialEq, Eq)]
pub struct WorkloadExclusivityKeyTemplate {
    pub name: String,
    pub value: TemplateText,
}

/// What a [`WorkloadExclusivityKeyTemplate`] holds.
#[verifier::ext_equal]
pub struct WorkloadExclusivityKeyTemplateView {
    pub name: Seq<char>,
    pub value: Seq<TemplateTextPartView>,
}

impl DeepView for WorkloadExclusivityKeyTemplate {
    type V = WorkloadExclusivityKeyTemplateView;

    open spec fn deep_view(&self) -> WorkloadExclusivityKeyTemplateView {
        WorkloadExclusivityKeyTemplateView {
            name: self.name.deep_view(),
            value: self.value.deep_view(),
        }
    }
}

impl Clone for WorkloadExclusivityKeyTemplate {
    fn clone(&self) -> (r: Self)
        ensures
            r.deep_view() == self.deep_view(),
    {
        WorkloadExclusivityKeyTemplate {
            name: self.name.clone(),
            value: self.value.clone(),
        }
    }
}

impl Same for WorkloadExclusivityKeyTemplate {
    fn is_same(&self, other: &Self) -> (r: bool) {
        self.name.is_same(&other.name) && self.value.is_same(&other.value)
    }
}

/// A version of a workload class: its templates, values and sleep policy.
#[derive(Debug, PartialEq, Eq)]
pub struct WorkloadClassVersion {
    pub reference: WorkloadClassVersionRef,
    pub template_generation: Generation,
    pub template: ManifestTemplate,
    pub default_values: StringMap<String>,
    pub value_schema: WorkloadValueSchema,
    pub sleep_policy: WorkloadSleepPolicy,
    pub exclusivity_keys: Vec<WorkloadExclusivityKeyTemplate>,
}

/// What a [`WorkloadClassVersion`] holds.
#[verifier::ext_equal]
pub struct WorkloadClassVersionView {
    pub reference: WorkloadClassVersionRefView,
    pub template_generation: nat,
    pub template: ManifestTemplateView,
    pub default_values: Map<Seq<char>, Seq<char>>,
    pub value_schema: WorkloadValueSchemaView,
    pub sleep_policy: WorkloadSleepPolicyView,
    pub exclusivity_keys: Seq<WorkloadExclusivityKeyTemplateView>,
}

impl DeepView for WorkloadClassVersion {
    type V = WorkloadClassVersionView;

    open spec fn deep_view(&self) -> WorkloadClassVersionView {
        WorkloadClassVersionView {
            reference: self.reference.deep_view(),
            template_generation: self.template_generation.deep_view(),
            template: self.template.deep_view(),
            default_values: self.default_values.deep_view(),
            value_schema: self.value_schema.deep_view(),
            sleep_policy: self.sleep_policy.deep_view(),
            exclusivity_keys: self.exclusivity_keys.deep_view(),
        }
    }
}

impl Clone for WorkloadClassVersion {
    fn clone(&self) -> (r: Self)
        ensures
            r.deep_view() == self.deep_view(),
    {
        let r = WorkloadClassVersion {
            reference: self.reference.clone(),
            template_generation: self.template_generation,
            template: self.template.clone(),
            default_values: self.default_values.clone(),
            value_schema: self.value_schema.clone(),
            sleep_policy: self.sleep_policy.clone(),
            exclusivity_keys: self.exclusivity_keys.clone(),
        };
        assert(r.default_values.deep_view() =~= self.default_values.deep_view());
        assert(r.exclusivity_keys.deep_view() =~= self.exclusivity_keys.deep_view());
        r
    }
}

/// Why a workload class is not accepted.
#[derive(Debug, PartialEq, Eq)]
pub enum WorkloadClassValidationError {
    Replicas { kind: WorkloadKind, replicas: u32 },
    SleepPolicy(SleepPolicyError),
}

/// What a [`WorkloadClassValidationError`] holds.
#[verifier::ext_equal]
pub enum WorkloadClassValidationErrorView {
    Replicas { kind: WorkloadKind, replicas: u32 },
    SleepPolicy(SleepPolicyErrorView),
}

impl DeepView for WorkloadClassValidationError {
    type V = WorkloadClassValidationErrorView;

    open spec fn deep_view(&self) -> WorkloadClassValidationErrorView {
        match self {
            WorkloadClassValidationError::Replicas {
                kind,
                replicas,
            } => WorkloadClassValidationErrorView::Replicas {
                kind: kind.deep_view(),
                replicas: replicas.deep_view(),
            },
            WorkloadClassValidationError::SleepPolicy(value) => WorkloadClassValidationErrorView::SleepPolicy(
                value.deep_view(),
            ),
        }
    }
}

impl Clone for WorkloadClassValidationError {
    fn clone(&self) -> (r: Self)
        ensures
            r.deep_view() == self.deep_view(),
    {
        match self {
            WorkloadClassValidationError::Replicas {
                kind,
                replicas,
            } => WorkloadClassValidationError::Replicas {
                kind: *kind,
                replicas: *replicas,
            },
            WorkloadClassValidationError::SleepPolicy(value) => WorkloadClassValidationError::SleepPolicy(
                value.clone(),
            ),
        }
    }
}

/// Asks for a workload class version to be stored.
#[derive(Debug, PartialEq, Eq)]
pub struct CreateWorkloadClassVersionRequest {
    pub workload_class_version: WorkloadClassVersion,
}

/// What a [`CreateWorkloadClassVersionRequest`] holds.
#[verifier::ext_equal]
pub struct CreateWorkloadClassVersionRequestView {
    pub workload_class_version: WorkloadClassVersionView,
}

impl DeepView for CreateWorkloadClassVersionRequest {
    type V = CreateWorkloadClassVersionRequestView;

    open spec fn deep_view(&self) -> CreateWorkloadClassVersionRequestView {
        CreateWorkloadClassVersionRequestView {
            workload_class_version: self.workload_class_version.deep_view(),
        }
    }
}

impl Clone for CreateWorkloadClassVersionRequest {
    fn clone(&self) -> (r: Self)
        ensures
            r.deep_view() == self.deep_view(),
    {
        CreateWorkloadClassVersionRequest {
            workload_class_version: self.workload_class_version.clone(),
        }
    }
}

/// Asks for a stored workload class version.
#[derive(Debug, PartialEq, Eq)]
pub struct LoadWorkloadClassVersionRequest {
    pub reference: WorkloadClassVersionRef,
}

/// What a [`LoadWorkloadClassVersionRequest`] holds.
#[verifier::ext_equal]
pub struct LoadWorkloadClassVersionRequestView {
    pub reference: WorkloadClassVersionRefView,
}

impl DeepView for LoadWorkloadClassVersionRequest {
    type V = LoadWorkloadClassVersionRequestView;

    open spec fn deep_view(&self) -> LoadWorkloadClassVersionRequestView {
        LoadWorkloadClassVersionRequestView {
            reference: self.reference.deep_view(),
        }
    }
}

impl Clone for LoadWorkloadClassVersionRequest {
    fn clone(&self) -> (r: Self)
        ensures
            r.deep_view() == self.deep_view(),
    {
        LoadWorkloadClassVersionRequest {
            reference: self.reference.clone(),
        }
    }
}

impl WorkloadClassVersionRef {
    pub fn new(class_id: WorkloadClassId, version: Generation) -> (r: Self)
        ensures
            r.deep_view() == (WorkloadClassVersionRefView {
                class_id: class_id@,
                version: version@,
            }),
    {
        WorkloadClassVersionRef { class_id, version }
    }
}

impl WorkloadValueFieldRule {
    /// A value that must be given.
    pub fn required() -> (r: Self)
        ensures
            r.deep_view() == (WorkloadValueFieldRuleView { required: true, default: None }),
    {
        WorkloadValueFieldRule { required: true, default: None }
    }

    /// A value that may be left out.
    pub fn optional() -> (r: Self)
        ensures
            r.deep_view() == (WorkloadValueFieldRuleView { required: false, default: None }),
    {
        WorkloadValueFieldRule { required: false, default: None }
    }

    /// A value that is filled in where it is left out.
    pub fn optional_with_default(value: &str) -> (r: Self)
        ensures
            r.deep_view() == (WorkloadValueFieldRuleView {
                required: false,
                default: Some(value@),
            }),
    {
        WorkloadValueFieldRule { required: false, default: Some(value.to_owned()) }
    }
}

/// What is shown for a value schema error.
pub open spec fn value_schema_message(error: ValueSchemaErrorView) -> Seq<char> {
    match error {
        ValueSchemaErrorView::MissingRequired { field } => {
            "missing required instance value "@ + text::debug_text(field)
        },
        ValueSchemaErrorView::Unknown { field } => {
            "unknown instance value "@ + text::debug_text(field)
        },
    }
}

impl ValueSchemaError {
    pub fn to_string(&self) -> (r: String)
        ensures
            r@ == value_schema_message(self.deep_view()),
    {
        match self {
            ValueSchemaError::MissingRequired { field } => {
                let field = text::quoted(field.as_str());
                text::join2("missing required instance value ", field.as_str())
            },
            ValueSchemaError::Unknown { field } => {
                let field = text::quoted(field.as_str());
                text::join2("unknown instance value ", field.as_str())
            },
        }
    }
}

/// The first given key that the schema does not know.
pub open spec fn first_unknown(
    given: Seq<(Seq<char>, Seq<char>)>,
    fields: Map<Seq<char>, WorkloadValueFieldRuleView>,
) -> Option<Seq<char>>
    decreases given.len(),
{
    if given.len() == 0 {
        None
    } else if !fields.contains_key(given[0].0) {
        Some(given[0].0)
    } else {
        first_unknown(given.drop_first(), fields)
    }
}

/// The first field, in key order, that must be given and is not.
pub open spec fn first_unmet(
    fields: Seq<(Seq<char>, WorkloadValueFieldRuleView)>,
    given: Map<Seq<char>, Seq<char>>,
) -> Option<Seq<char>>
    decreases fields.len(),
{
    if fields.len() == 0 {
        None
    } else if !given.contains_key(fields[0].0) && fields[0].1.default is None
        && fields[0].1.required {
        Some(fields[0].0)
    } else {
        first_unmet(fields.drop_first(), given)
    }
}

/// The given values with the defaults of the fields that were left out.
pub open spec fn with_defaults(
    fields: Map<Seq<char>, WorkloadValueFieldRuleView>,
    given: Map<Seq<char>, Seq<char>>,
) -> Map<Seq<char>, Seq<char>> {
    Map::new(
        |k: Seq<char>|
            given.contains_key(k) || (fields.contains_key(k) && fields[k].default is Some),
        |k: Seq<char>|
            if given.contains_key(k) {
                given[k]
            } else {
                fields[k].default->0
            },
    )
}

/// What a schema makes of given values.
pub open spec fn validated_values(
    schema: WorkloadValueSchema,
    values: InstanceValues,
) -> Result<Map<Seq<char>, Seq<char>>, ValueSchemaErrorView> {
    let fields = schema.fields.deep_view();
    if !schema.allow_extra && first_unknown(values.pairs(), fields) is Some {
        Err(ValueSchemaErrorView::Unknown { field: first_unknown(values.pairs(), fields)->0 })
    } else if first_unmet(schema.fields.pairs(), values.deep_view()) is Some {
        Err(
            ValueSchemaErrorView::MissingRequired {
                field: first_unmet(schema.fields.pairs(), values.deep_view())->0,
            },
        )
    } else {
        Ok(with_defaults(fields, values.deep_view()))
    }
}

impl WorkloadValueSchema {
    /// A schema without fields.
    pub fn new(allow_extra: bool) -> (r: Self)
        ensures
            r.deep_view() == (WorkloadValueSchemaView { fields: Map::empty(), allow_extra }),
    {
        WorkloadValueSchema { fields: StringMap::new(), allow_extra }
    }

    /// The schema with a rule for a field.
    pub fn with_field(self, name: &str, rule: WorkloadValueFieldRule) -> (r: Self)
        ensures
            r.deep_view() == (WorkloadValueSchemaView {
                fields: self.deep_view().fields.insert(name@, rule.deep_view()),
                allow_extra: self.allow_extra,
            }),
    {
        let mut fields = self.fields;
        fields.insert(name, rule);
        WorkloadValueSchema { fields, allow_extra: self.allow_extra }
    }

    fn find_unknown(&self, values: &InstanceValues) -> (r: Option<String>)
        ensures
            r.deep_view() == first_unknown(values.pairs(), self.fields.deep_view()),
    {
        let ghost given = values.pairs();
        let ghost fields = self.fields.deep_view();
        let mut i: usize = 0;
        assert(given.skip(0) =~= given);
        let count: usize = values.len();
        while i < count
            invariant
                0 <= i <= count,
                count == given.len(),
                given == values.pairs(),
                fields == self.fields.deep_view(),
                first_unknown(given, fields) == first_unknown(given.skip(i as int), fields),
            decreases count - i,
        {
            assert(given.skip(i as int)[0] == given[i as int]);
            assert(given.skip(i as int).drop_first() =~= given.skip(i + 1));
            let key = values.key_at(i);
            if !self.fields.contains_key(key) {
                return Some(key.to_owned());
            }
            i = i + 1;
        }
        None
    }

    /// Checks given values against the schema and fills in the defaults.
    pub fn validate_values(&self, values: &InstanceValues) -> (r: Result<
        InstanceValues,
        ValueSchemaError,
    >)
        ensures
            outcome::of(r) == validated_values(*self, *values),
    {
        if !self.allow_extra {
            if let Some(field) = self.find_unknown(values) {
                return Err(ValueSchemaError::Unknown { field });
            }
        }
        let ghost rules = self.fields.pairs();
        let ghost given = values.deep_view();
        let mut validated = string_map::copy_of(values);
        let count: usize = self.fields.len();
        let mut i: usize = 0;
        assert(rules.skip(0) =~= rules);
        proof {
            string_map::lemma_map_of_pairs(rules);
        }
        while i < count
            invariant
                0 <= i <= count,
                count == rules.len(),
                rules == self.fields.pairs(),
                given == values.deep_view(),
                string_map::sorted_keys(rules),
                !self.allow_extra ==> first_unknown(values.pairs(), self.fields.deep_view()) is None,
                first_unmet(rules, given) == first_unmet(rules.skip(i as int), given),
                forall|k: Seq<char>| #[trigger]
                    validated.deep_view().contains_key(k) <==> given.contains_key(k) || exists|j: int|
                        0 <= j < i && #[trigger] rules[j].0 == k && rules[j].1.default is Some,
                forall|k: Seq<char>|
                    given.contains_key(k) ==> #[trigger] validated.deep_view()[k] == given[k],
                forall|j: int|
                    0 <= j < i && !given.contains_key((#[trigger] rules[j]).0)
                        && rules[j].1.default is Some ==> validated.deep_view()[rules[j].0]
                        == rules[j].1.default->0,
            decreases count - i,
        {
            assert(rules.skip(i as int)[0] == rules[i as int]);
            assert(rules.skip(i as int).drop_first() =~= rules.skip(i + 1));
            let field = self.fields.key_at(i);
            let rule = self.fields.value_at(i);
            assert(rule.deep_view() == rules[i as int].1);
            assert(rule.default.deep_view() == rules[i as int].1.default);
            if !values.contains_key(field) {
                match &rule.default {
                    Some(value) => {
                        let ghost before = validated.deep_view();
                        validated.insert(field, value.clone());
                        proof {
                            assert(validated.deep_view() == before.insert(field@, value@));
                            assert forall|j: int| 0 <= j < i implies (#[trigger] rules[j]).0
                                != field@ by {
                                text::lemma_precedes_irreflexive(field@);
                                assert(text::precedes(rules[j].0, rules[i as int].0));
                            }
                            assert forall|k: Seq<char>| #[trigger]
                                validated.deep_view().contains_key(k) implies given.contains_key(k)
                                || exists|j: int|
                                0 <= j < i + 1 && #[trigger] rules[j].0 == k
                                    && rules[j].1.default is Some by {
                                if k == field@ {
                                    assert(rules[i as int].0 == k);
                                }
                            }
                        }
                    },
                    None => {
                        if rule.required {
                            return Err(
                                ValueSchemaError::MissingRequired { field: field.to_owned() },
                            );
                        }
                    },
                }
            }
            i = i + 1;
        }
        proof {
            let fields = self.fields.deep_view();
            let goal = with_defaults(fields, given);
            assert forall|k: Seq<char>| #[trigger]
                validated.deep_view().contains_key(k) == goal.contains_key(k) by {
                if goal.contains_key(k) && !given.contains_key(k) {
                    assert(string_map::has_key(rules, k));
                    let j = choose|j: int| 0 <= j < rules.len() && #[trigger] rules[j].0 == k;
                    assert(rules[j].0 == k);
                }
            }
            assert forall|k: Seq<char>| #[trigger]
                goal.contains_key(k) implies validated.deep_view()[k] == goal[k] by {
                if !given.contains_key(k) {
                    let j = choose|j: int| 0 <= j < rules.len() && #[trigger] rules[j].0 == k;
                    assert(rules[j].0 == k);
                }
            }
            assert(validated.deep_view() =~= goal);
        }
        Ok(validated)
    }
}

proof fn lemma_unmet_field(
    fields: Seq<(Seq<char>, WorkloadValueFieldRuleView)>,
    given: Map<Seq<char>, Seq<char>>,
    i: int,
)
    requires
        0 <= i < fields.len(),
        first_unmet(fields, given) is None,
        fields[i].1.required,
    ensures
        given.contains_key(fields[i].0) || fields[i].1.default is Some,
    decreases i,
{
    if i > 0 {
        assert(fields.drop_first()[i - 1] == fields[i]);
        lemma_unmet_field(fields.drop_first(), given, i - 1);
    }
}

proof fn lemma_known_field(
    given: Seq<(Seq<char>, Seq<char>)>,
    fields: Map<Seq<char>, WorkloadValueFieldRuleView>,
    i: int,
)
    requires
        0 <= i < given.len(),
        first_unknown(given, fields) is None,
    ensures
        fields.contains_key(given[i].0),
    decreases i,
{
    if i > 0 {
        assert(given.drop_first()[i - 1] == given[i]);
        lemma_known_field(given.drop_first(), fields, i - 1);
    }
}

/// Values that fit a schema keep what was given, have every field that is required, and
/// have no other fields than the schema's unless it allows them.
pub proof fn lemma_values_fit_their_schema(schema: WorkloadValueSchema, values: InstanceValues)
    requires
        string_map::sorted_keys(schema.fields.pairs()),
        string_map::sorted_keys(values.pairs()),
        validated_values(schema, values) is Ok,
    ensures
        ({
            let fields = schema.fields.deep_view();
            let given = values.deep_view();
            let result = validated_values(schema, values)->Ok_0;
            &&& given.submap_of(result)
            &&& forall|k: Seq<char>| #[trigger]
                fields.contains_key(k) && fields[k].required ==> result.contains_key(k)
            &&& !schema.allow_extra ==> forall|k: Seq<char>| #[trigger]
                result.contains_key(k) ==> fields.contains_key(k)
        }),
{
    let rules = schema.fields.pairs();
    let pairs = values.pairs();
    let fields = schema.fields.deep_view();
    let given = values.deep_view();
    let result = validated_values(schema, values)->Ok_0;
    string_map::lemma_map_of_pairs(rules);
    string_map::lemma_map_of_pairs(pairs);
    assert forall|k: Seq<char>| #[trigger]
        fields.contains_key(k) && fields[k].required implies result.contains_key(k) by {
        let i = choose|i: int| 0 <= i < rules.len() && #[trigger] rules[i].0 == k;
        lemma_unmet_field(rules, given, i);
    }
    if !schema.allow_extra {
        assert forall|k: Seq<char>| #[trigger]
            result.contains_key(k) implies fields.contains_key(k) by {
            if given.contains_key(k) {
                let i = choose|i: int| 0 <= i < pairs.len() && #[trigger] pairs[i].0 == k;
                lemma_known_field(pairs, fields, i);
            }
        }
    }
}

/// What is added to given values is the default of each field that was left out, and
/// nothing else.
pub proof fn lemma_left_out_fields_get_their_default(
    schema: WorkloadValueSchema,
    values: InstanceValues,
    key: Seq<char>,
)
    requires
        validated_values(schema, values) is Ok,
        !values.deep_view().contains_key(key),
    ensures
        ({
            let fields = schema.fields.deep_view();
            let result = validated_values(schema, values)->Ok_0;
            &&& result.contains_key(key) <==> fields.contains_key(key)
                && fields[key].default is Some
            &&& result.contains_key(key) ==> Some(result[key]) == fields[key].default
        }),
{
}

proof fn lemma_first_unknown(
    given: Seq<(Seq<char>, Seq<char>)>,
    fields: Map<Seq<char>, WorkloadValueFieldRuleView>,
)
    ensures
        match first_unknown(given, fields) {
            Some(key) => !fields.contains_key(key) && exists|i: int|
                0 <= i < given.len() && (#[trigger] given[i]).0 == key,
            None => forall|i: int|
                0 <= i < given.len() ==> fields.contains_key((#[trigger] given[i]).0),
        },
    decreases given.len(),
{
    if given.len() > 0 {
        let rest = given.drop_first();
        lemma_first_unknown(rest, fields);
        if !fields.contains_key(given[0].0) {
            assert(given[0].0 == first_unknown(given, fields)->0);
        } else {
            match first_unknown(rest, fields) {
                Some(key) => {
                    let i = choose|i: int| 0 <= i < rest.len() && (#[trigger] rest[i]).0 == key;
                    assert(given[i + 1] == rest[i]);
                },
                None => {
                    assert forall|i: int| 0 <= i < given.len() implies fields.contains_key(
                        (#[trigger] given[i]).0,
                    ) by {
                        if i > 0 {
                            assert(rest[i - 1] == given[i]);
                        }
                    }
                },
            }
        }
    }
}

/// Whether a field has to be given and is not.
pub open spec fn is_missing(
    field: (Seq<char>, WorkloadValueFieldRuleView),
    given: Map<Seq<char>, Seq<char>>,
) -> bool {
    field.1.required && field.1.default is None && !given.contains_key(field.0)
}

proof fn lemma_first_unmet(
    fields: Seq<(Seq<char>, WorkloadValueFieldRuleView)>,
    given: Map<Seq<char>, Seq<char>>,
)
    ensures
        match first_unmet(fields, given) {
            Some(key) => exists|i: int|
                0 <= i < fields.len() && is_missing(#[trigger] fields[i], given) && fields[i].0
                    == key,
            None => forall|i: int|
                0 <= i < fields.len() ==> !is_missing(#[trigger] fields[i], given),
        },
    decreases fields.len(),
{
    if fields.len() > 0 {
        let rest = fields.drop_first();
        lemma_first_unmet(rest, given);
        if is_missing(fields[0], given) {
            assert(fields[0].0 == first_unmet(fields, given)->0);
        } else {
            match first_unmet(rest, given) {
                Some(key) => {
                    let i = choose|i: int|
                        0 <= i < rest.len() && is_missing(#[trigger] rest[i], given) && rest[i].0
                            == key;
                    assert(fields[i + 1] == rest[i]);
                },
                None => {
                    assert forall|i: int| 0 <= i < fields.len() implies !is_missing(
                        #[trigger] fields[i],
                        given,
                    ) by {
                        if i > 0 {
                            assert(rest[i - 1] == fields[i]);
                        }
                    }
                },
            }
        }
    }
}

/// Values are refused only for a field that the schema does not know, where it does not
/// allow others, or for one that has to be given, has no default and was left out; and
/// the field is named.
pub proof fn lemma_refused_values_lack_or_exceed(
    schema: WorkloadValueSchema,
    values: InstanceValues,
)
    ensures
        match validated_values(schema, values) {
            Err(ValueSchemaErrorView::Unknown { field }) => !schema.allow_extra
                && !schema.fields.deep_view().contains_key(field) && exists|i: int|
                0 <= i < values.pairs().len() && (#[trigger] values.pairs()[i]).0 == field,
            Err(ValueSchemaErrorView::MissingRequired { field }) => exists|i: int|
                0 <= i < schema.fields.pairs().len() && is_missing(
                    #[trigger] schema.fields.pairs()[i],
                    values.deep_view(),
                ) && schema.fields.pairs()[i].0 == field,
            _ => true,
        },
        (schema.allow_extra || forall|i: int|
            0 <= i < values.pairs().len() ==> schema.fields.deep_view().contains_key(
                (#[trigger] values.pairs()[i]).0,
            )) && (forall|i: int|
            0 <= i < schema.fields.pairs().len() ==> !is_missing(
                #[trigger] schema.fields.pairs()[i],
                values.deep_view(),
            )) ==> validated_values(schema, values) is Ok,
{
    lemma_first_unknown(values.pairs(), schema.fields.deep_view());
    lemma_first_unmet(schema.fields.pairs(), values.deep_view());
}

impl Default for WorkloadValueSchema {
    fn default() -> (r: Self)
        ensures
            r.deep_view() == (WorkloadValueSchemaView { fields: Map::empty(), allow_extra: false }),
    {
        WorkloadValueSchema::new(false)
    }
}

impl WorkloadExclusivityKeyTemplate {
    pub fn new(name: &str, value: TemplateText) -> (r: Self)
        ensures
            r.deep_view() == (WorkloadExclusivityKeyTemplateView {
                name: name@,
                value: value.deep_view(),
            }),
    {
        WorkloadExclusivityKeyTemplate { name: name.to_owned(), value }
    }
}

/// What is wrong with a workload class: a replica count other than one, then its
/// sleep policy.
pub open spec fn class_problem(
    class: WorkloadClassVersionView,
) -> Option<WorkloadClassValidationErrorView> {
    match class.template.workload.replicas {
        Some(replicas) if replicas != 1 => Some(
            WorkloadClassValidationErrorView::Replicas {
                kind: class.template.workload.kind,
                replicas,
            },
        ),
        _ => match sleep_policy::policy_problem(class.sleep_policy) {
            Some(error) => Some(WorkloadClassValidationErrorView::SleepPolicy(error)),
            None => None,
        },
    }
}

/// A workload class is accepted if and only if it asks for one replica, or for none in
/// particular, and its sleep policy is in order.
pub proof fn lemma_class_in_order_is_accepted(class: WorkloadClassVersionView)
    ensures
        class_problem(class) is None <==> (class.template.workload.replicas is None
            || class.template.workload.replicas == Some(1u32))
            && sleep_policy::policy_problem(class.sleep_policy) is None,
        class_problem(class) matches Some(WorkloadClassValidationErrorView::Replicas {
            kind,
            replicas,
        }) ==> kind == class.template.workload.kind && Some(replicas)
            == class.template.workload.replicas && replicas != 1,
        class_problem(class) matches Some(WorkloadClassValidationErrorView::SleepPolicy(error))
            ==> sleep_policy::policy_problem(class.sleep_policy) == Some(error),
{
}

/// The name of a workload kind.
pub open spec fn kind_name(kind: WorkloadKind) -> Seq<char> {
    match kind {
        WorkloadKind::Deployment => "Deployment"@,
        WorkloadKind::StatefulSet => "StatefulSet"@,
    }
}

/// The name of a workload kind.
pub fn workload_kind_name(kind: WorkloadKind) -> (r: &'static str)
    ensures
        r@ == kind_name(kind),
{
    match kind {
        WorkloadKind::Deployment => "Deployment",
        WorkloadKind::StatefulSet => "StatefulSet",
    }
}

/// What is shown for a workload class error.
pub open spec fn workload_class_message(error: WorkloadClassValidationErrorView) -> Seq<char> {
    match error {
        WorkloadClassValidationErrorView::Replicas { kind, replicas } => {
            kind_name(kind) + " replicas "@ + text::decimal(replicas as nat)
                + " are invalid: exactly one replica is supported"@
        },
        WorkloadClassValidationErrorView::SleepPolicy(error) => sleep_policy::sleep_policy_message(
            error,
        ),
    }
}

impl WorkloadClassValidationError {
    pub fn to_string(&self) -> (r: String)
        ensures
            r@ == workload_class_message(self.deep_view()),
    {
        match self {
            WorkloadClassValidationError::Replicas { kind, replicas } => {
                let count = text::number(*replicas as u64);
                text::join4(
                    workload_kind_name(*kind),
                    " replicas ",
                    count.as_str(),
                    " are invalid: exactly one replica is supported",
                )
            },
            WorkloadClassValidationError::SleepPolicy(error) => error.to_string(),
        }
    }
}

impl WorkloadClassVersion {
    /// Whether another version is the same in all that it holds.
    pub fn is_same_as(&self, other: &WorkloadClassVersion) -> (r: bool)
        ensures
            r == (self.deep_view() == other.deep_view()),
    {
        self.reference.is_same(&other.reference)
            && self.template_generation.is_same(&other.template_generation)
            && self.template.is_same(&other.template)
            && self.default_values.is_same(&other.default_values)
            && self.value_schema.is_same(&other.value_schema)
            && self.sleep_policy.is_same(&other.sleep_policy)
            && self.exclusivity_keys.is_same(&other.exclusivity_keys)
    }

    /// Checks the replica count and the sleep policy.
    pub fn validate(&self) -> (r: Result<(), WorkloadClassValidationError>)
        ensures
            outcome::problem(r) == class_problem(self.deep_view()),
    {
        if let Some(replicas) = self.template.workload.replicas {
            if replicas != 1 {
                return Err(
                    WorkloadClassValidationError::Replicas {
                        kind: self.template.workload.kind,
                        replicas,
                    },
                );
            }
        }
        match self.sleep_policy.validate() {
            Ok(()) => Ok(()),
            Err(error) => Err(WorkloadClassValidationError::SleepPolicy(error)),
        }
    }
}

impl CreateWorkloadClassVersionRequest {
    pub fn new(workload_class_version: WorkloadClassVersion) -> (r: Self)
        ensures
            r.workload_class_version == workload_class_version,
    {
        CreateWorkloadClassVersionRequest { workload_class_version }
    }
}

impl LoadWorkloadClassVersionRequest {
    pub fn new(reference: WorkloadClassVersionRef) -> (r: Self)
        ensures
            r.reference == reference,
    {
        LoadWorkloadClassVersionRequest { reference }
    }
}

} // verus!
