//! Batch Validator: structural checks on one event, on a whole batch,
//! and on a pipeline definition. Errors block transmission; warnings are
//! advisory only. Validation never mutates its input.

use vstd::prelude::*;
use vstd::string::*;
use crate::events::Event;
use crate::text::{dec_str, str_eq, usize_to_string};

verus! {

/// Outcome of a validation pass: `errors` block the operation,
/// `warnings` do not. `is_valid` holds exactly while no error has been
/// recorded.
pub struct ValidationResult {
    pub is_valid: bool,
    pub errors: Vec<String>,
    pub warnings: Vec<String>,
}

impl ValidationResult {
    /// A fresh result: valid, with no findings.
    pub fn new() -> (r: ValidationResult)
        ensures
            r.is_valid,
            r.errors@.len() == 0,
            r.warnings@.len() == 0,
    {
        ValidationResult { is_valid: true, errors: Vec::new(), warnings: Vec::new() }
    }

    /// Records a blocking error and marks the result invalid.
    pub fn add_error(&mut self, error: String)
        ensures
            !final(self).is_valid,
            final(self).errors@ == old(self).errors@.push(error),
            final(self).warnings@ == old(self).warnings@,
    {
        self.is_valid = false;
        self.errors.push(error);
    }

    /// Records an advisory warning; validity is untouched.
    pub fn add_warning(&mut self, warning: String)
        ensures
            final(self).is_valid == old(self).is_valid,
            final(self).errors@ == old(self).errors@,
            final(self).warnings@ == old(self).warnings@.push(warning),
    {
        self.warnings.push(warning);
    }
}

// ---------------------------------------------------------------------------
// Per-event validation
// ---------------------------------------------------------------------------

/// `k` occurs among the keys.
pub open spec fn has_key(keys: Seq<Seq<char>>, k: Seq<char>) -> bool {
    exists|i: int| 0 <= i < keys.len() && #[trigger] keys[i] == k
}

/// The error messages a single event earns: it must be an object and
/// must carry a `timestamp`, a `source` and a `data` field.
pub open spec fn event_error_msgs(e: Event) -> Seq<Seq<char>> {
    if !e.is_object {
        seq!["Event must be a JSON object"@]
    } else {
        (if !has_key(e.keys.deep_view(), "timestamp"@) {
            seq!["Event must have a 'timestamp' field"@]
        } else {
            Seq::empty()
        }) + (if !has_key(e.keys.deep_view(), "source"@) {
            seq!["Event must have a 'source' field"@]
        } else {
            Seq::empty()
        }) + (if !has_key(e.keys.deep_view(), "data"@) {
            seq!["Event must have a 'data' field"@]
        } else {
            Seq::empty()
        })
    }
}

/// A structurally valid event earns no error message.
pub open spec fn event_valid(e: Event) -> bool {
    event_error_msgs(e).len() == 0
}

/// Whether one of the strings in `keys` reads `k`.
pub fn keys_contain(keys: &Vec<String>, k: &str) -> (r: bool)
    ensures
        r == has_key(keys.deep_view(), k@),
{
    let n = keys.len();
    let mut i: usize = 0;
    while i < n
        invariant
            n == keys@.len(),
            i <= n,
            forall|j: int| 0 <= j < i ==> #[trigger] keys.deep_view()[j] != k@,
        decreases n - i,
    {
        if str_eq(keys[i].as_str(), k) {
            proof {
                assert(keys.deep_view()[i as int] == k@);
            }
            return true;
        }
        i += 1;
    }
    false
}

/// Checks one event for the fields the gateway's schema requires.
/// Returns exactly the messages of `event_error_msgs`, and no warnings.
pub fn validate_event(event: &Event) -> (r: ValidationResult)
    ensures
        r.errors.deep_view() == event_error_msgs(*event),
        r.warnings@.len() == 0,
        r.is_valid <==> event_valid(*event),
{
    let mut result = ValidationResult::new();
    proof {
        assert(result.errors.deep_view() =~= Seq::<Seq<char>>::empty());
    }
    if !event.is_object {
        let ghost before = result.errors.deep_view();
        result.add_error("Event must be a JSON object".to_owned());
        proof {
            assert(result.errors.deep_view() =~= before.push("Event must be a JSON object"@));
            assert(result.errors.deep_view() =~= event_error_msgs(*event));
        }
        return result;
    }
    if !keys_contain(&event.keys, "timestamp") {
        let ghost before = result.errors.deep_view();
        result.add_error("Event must have a 'timestamp' field".to_owned());
        proof {
            assert(result.errors.deep_view() =~= before.push(
                "Event must have a 'timestamp' field"@,
            ));
        }
    }
    if !keys_contain(&event.keys, "source") {
        let ghost before = result.errors.deep_view();
        result.add_error("Event must have a 'source' field".to_owned());
        proof {
            assert(result.errors.deep_view() =~= before.push("Event must have a 'source' field"@));
        }
    }
    if !keys_contain(&event.keys, "data") {
        let ghost before = result.errors.deep_view();
        result.add_error("Event must have a 'data' field".to_owned());
        proof {
            assert(result.errors.deep_view() =~= before.push("Event must have a 'data' field"@));
        }
    }
    proof {
        assert(result.errors.deep_view() =~= event_error_msgs(*event));
    }
    result
}

// ---------------------------------------------------------------------------
// Batch validation
// ---------------------------------------------------------------------------

/// The messages of one event, each prefixed with the event's index.
pub open spec fn prefixed_event_errors(e: Event, idx: nat) -> Seq<Seq<char>> {
    event_error_msgs(e).map_values(|m: Seq<char>| "Event "@ + dec_str(idx) + ": "@ + m)
}

/// All per-event messages of the batch, in event order.
pub open spec fn batch_event_errors(evs: Seq<Event>) -> Seq<Seq<char>>
    decreases evs.len(),
{
    if evs.len() == 0 {
        Seq::empty()
    } else {
        batch_event_errors(evs.drop_last()) + prefixed_event_errors(
            evs.last(),
            (evs.len() - 1) as nat,
        )
    }
}

/// The blocking findings of batch validation: an empty batch is an
/// error by itself; otherwise each event contributes its own messages.
pub open spec fn batch_validation_errors(evs: Seq<Event>) -> Seq<Seq<char>> {
    if evs.len() == 0 {
        seq!["Batch cannot be empty"@]
    } else {
        batch_event_errors(evs)
    }
}

/// The advisory warning a batch of more than 1000 events earns.
pub open spec fn large_batch_warning(n: nat) -> Seq<char> {
    "Large batch size: "@ + dec_str(n) + " events (recommended: < 1000)"@
}

/// The advisory findings of batch validation.
pub open spec fn batch_validation_warnings(evs: Seq<Event>) -> Seq<Seq<char>> {
    if evs.len() > 1000 {
        seq![large_batch_warning(evs.len())]
    } else {
        Seq::empty()
    }
}

proof fn lemma_batch_event_errors_step(evs: Seq<Event>, i: int)
    requires
        0 <= i < evs.len(),
    ensures
        batch_event_errors(evs.take(i + 1)) == batch_event_errors(evs.take(i))
            + prefixed_event_errors(evs[i], i as nat),
{
    assert(evs.take(i + 1).drop_last() =~= evs.take(i));
    assert(evs.take(i + 1).last() == evs[i]);
}

/// Checks a whole batch: an empty batch is refused outright, an
/// oversized batch is only warned about, and every event is checked,
/// its messages prefixed with its index.
pub fn validate_batch(events: &Vec<Event>) -> (r: ValidationResult)
    ensures
        r.errors.deep_view() == batch_validation_errors(events@),
        r.warnings.deep_view() == batch_validation_warnings(events@),
        r.is_valid <==> batch_validation_errors(events@).len() == 0,
{
    let mut result = ValidationResult::new();
    proof {
        assert(result.errors.deep_view() =~= Seq::<Seq<char>>::empty());
        assert(result.warnings.deep_view() =~= Seq::<Seq<char>>::empty());
    }
    if events.len() == 0 {
        result.add_error("Batch cannot be empty".to_owned());
        proof {
            assert(result.errors.deep_view() =~= seq!["Batch cannot be empty"@]);
            assert(result.warnings.deep_view() =~= Seq::<Seq<char>>::empty());
        }
        return result;
    }
    if events.len() > 1000 {
        let mut w = "Large batch size: ".to_owned();
        w.append(usize_to_string(events.len()).as_str());
        w.append(" events (recommended: < 1000)");
        proof {
            assert(w@ == large_batch_warning(events@.len()));
        }
        result.add_warning(w);
        proof {
            assert(result.warnings.deep_view() =~= seq![large_batch_warning(events@.len())]);
        }
    }
    let n = events.len();
    let mut idx: usize = 0;
    while idx < n
        invariant
            n == events@.len(),
            n > 0,
            idx <= n,
            result.errors.deep_view() == batch_event_errors(events@.take(idx as int)),
            result.warnings.deep_view() == batch_validation_warnings(events@),
            result.is_valid <==> result.errors@.len() == 0,
        decreases n - idx,
    {
        let event_result = validate_event(&events[idx]);
        if !event_result.is_valid {
            let m = event_result.errors.len();
            let mut j: usize = 0;
            while j < m
                invariant
                    n == events@.len(),
                    idx < n,
                    m == event_result.errors@.len(),
                    j <= m,
                    event_result.errors.deep_view() == event_error_msgs(events@[idx as int]),
                    result.errors.deep_view() == batch_event_errors(events@.take(idx as int))
                        + prefixed_event_errors(events@[idx as int], idx as nat).take(j as int),
                    result.warnings.deep_view() == batch_validation_warnings(events@),
                    result.is_valid <==> result.errors@.len() == 0,
                decreases m - j,
            {
                let mut msg = "Event ".to_owned();
                msg.append(usize_to_string(idx).as_str());
                msg.append(": ");
                msg.append(event_result.errors[j].as_str());
                let ghost before = result.errors.deep_view();
                proof {
                    assert(msg@ == "Event "@ + dec_str(idx as nat) + ": "@
                        + event_result.errors.deep_view()[j as int]);
                    assert(prefixed_event_errors(events@[idx as int], idx as nat)[j as int]
                        == "Event "@ + dec_str(idx as nat) + ": "@ + event_error_msgs(
                        events@[idx as int],
                    )[j as int]);
                }
                result.add_error(msg);
                proof {
                    assert(result.errors.deep_view() =~= before.push(msg@));
                    assert(result.errors.deep_view() =~= batch_event_errors(
                        events@.take(idx as int),
                    ) + prefixed_event_errors(events@[idx as int], idx as nat).take(j + 1));
                }
                j += 1;
            }
            proof {
                assert(prefixed_event_errors(events@[idx as int], idx as nat).take(m as int)
                    =~= prefixed_event_errors(events@[idx as int], idx as nat));
            }
        } else {
            proof {
                assert(prefixed_event_errors(events@[idx as int], idx as nat).len() == 0);
                assert(result.errors.deep_view() =~= batch_event_errors(events@.take(idx as int))
                    + prefixed_event_errors(events@[idx as int], idx as nat));
            }
        }
        proof {
            lemma_batch_event_errors_step(events@, idx as int);
        }
        idx += 1;
    }
    proof {
        assert(events@.take(n as int) =~= events@);
        assert(result.errors@.len() == result.errors.deep_view().len());
    }
    result
}

/// Law: over structurally valid events, batch validation yields an
/// error exactly when the batch is empty; a batch of more than 1000
/// such events stays valid and earns exactly one warning.
pub proof fn lemma_batch_validation_law(evs: Seq<Event>)
    requires
        forall|i: int| 0 <= i < evs.len() ==> event_valid(#[trigger] evs[i]),
    ensures
        batch_validation_errors(evs).len() > 0 <==> evs.len() == 0,
        batch_validation_warnings(evs).len() == (if evs.len() > 1000 {
            1int
        } else {
            0int
        }),
{
    lemma_batch_event_errors_all_valid(evs);
}

proof fn lemma_batch_event_errors_all_valid(evs: Seq<Event>)
    requires
        forall|i: int| 0 <= i < evs.len() ==> event_valid(#[trigger] evs[i]),
    ensures
        batch_event_errors(evs).len() == 0,
    decreases evs.len(),
{
    if evs.len() > 0 {
        assert(forall|i: int|
            0 <= i < evs.drop_last().len() ==> event_valid(#[trigger] evs.drop_last()[i]));
        lemma_batch_event_errors_all_valid(evs.drop_last());
        assert(event_valid(evs.last()));
    }
}

// ---------------------------------------------------------------------------
// Pipeline validation
// ---------------------------------------------------------------------------

/// A structured JSON payload held as plain values — what the pipeline
/// checks read. A number is kept as its decimal text.
#[derive(Debug)]
pub enum JsonValue {
    Null,
    Bool(bool),
    Number(String),
    Text(String),
    Array(Vec<JsonValue>),
    Object(Vec<(String, JsonValue)>),
}

/// `k` is bound in the object's fields.
pub open spec fn obj_has_key(fields: Seq<(String, JsonValue)>, k: Seq<char>) -> bool {
    exists|i: int| 0 <= i < fields.len() && (#[trigger] fields[i]).0@ == k
}

/// The first value bound to `k`; `Null` when `k` is unbound.
pub open spec fn obj_get(fields: Seq<(String, JsonValue)>, k: Seq<char>) -> JsonValue
    decreases fields.len(),
{
    if fields.len() == 0 {
        JsonValue::Null
    } else if fields.first().0@ == k {
        fields.first().1
    } else {
        obj_get(fields.drop_first(), k)
    }
}

/// A string value with at least one character.
pub open spec fn is_nonempty_string(v: JsonValue) -> bool {
    v matches JsonValue::Text(s) && s@.len() > 0
}

/// An array value with no elements.
pub open spec fn is_empty_array(v: JsonValue) -> bool {
    v matches JsonValue::Array(a) && a@.len() == 0
}

proof fn lemma_obj_get_at(fields: Seq<(String, JsonValue)>, k: Seq<char>, i: int)
    requires
        0 <= i < fields.len(),
        forall|j: int| 0 <= j < i ==> (#[trigger] fields[j]).0@ != k,
        fields[i].0@ == k,
    ensures
        obj_get(fields, k) == fields[i].1,
    decreases i,
{
    if i > 0 {
        assert(forall|j: int|
            0 <= j < i - 1 ==> (#[trigger] fields.drop_first()[j]).0@ == fields[j + 1].0@);
        lemma_obj_get_at(fields.drop_first(), k, i - 1);
    }
}

/// The first binding of `k` in the fields, if any.
fn obj_find<'a>(fields: &'a Vec<(String, JsonValue)>, k: &str) -> (r: Option<&'a JsonValue>)
    ensures
        r is Some <==> obj_has_key(fields@, k@),
        r matches Some(v) ==> *v == obj_get(fields@, k@),
{
    let n = fields.len();
    let mut i: usize = 0;
    while i < n
        invariant
            n == fields@.len(),
            i <= n,
            forall|j: int| 0 <= j < i ==> (#[trigger] fields@[j]).0@ != k@,
        decreases n - i,
    {
        if str_eq(fields[i].0.as_str(), k) {
            proof {
                lemma_obj_get_at(fields@, k@, i as int);
            }
            return Some(&fields[i].1);
        }
        i += 1;
    }
    None
}

/// The messages the `name` rule earns: the field must exist and hold a
/// non-empty string.
pub open spec fn pipeline_name_errors(fields: Seq<(String, JsonValue)>) -> Seq<Seq<char>> {
    if !obj_has_key(fields, "name"@) {
        seq!["Pipeline must have a 'name' field"@]
    } else if !is_nonempty_string(obj_get(fields, "name"@)) {
        seq!["Pipeline 'name' must be a non-empty string"@]
    } else {
        Seq::empty()
    }
}

/// The messages the `version` rule earns: the field must exist and
/// hold a string.
pub open spec fn pipeline_version_errors(fields: Seq<(String, JsonValue)>) -> Seq<Seq<char>> {
    if !obj_has_key(fields, "version"@) {
        seq!["Pipeline must have a 'version' field"@]
    } else if !(obj_get(fields, "version"@) is Text) {
        seq!["Pipeline 'version' must be a string"@]
    } else {
        Seq::empty()
    }
}

/// The messages one step earns: it must be an object with a `type`.
pub open spec fn step_errors(step: JsonValue, idx: nat) -> Seq<Seq<char>> {
    if !(step is Object) {
        seq!["Step "@ + dec_str(idx) + " must be an object"@]
    } else if !obj_has_key(step->Object_0@, "type"@) {
        seq!["Step "@ + dec_str(idx) + " must have a 'type' field"@]
    } else {
        Seq::empty()
    }
}

/// All step messages, in step order.
pub open spec fn steps_list_errors(steps: Seq<JsonValue>) -> Seq<Seq<char>>
    decreases steps.len(),
{
    if steps.len() == 0 {
        Seq::empty()
    } else {
        steps_list_errors(steps.drop_last()) + step_errors(
            steps.last(),
            (steps.len() - 1) as nat,
        )
    }
}

/// The messages the optional `steps` field earns.
pub open spec fn pipeline_steps_errors(fields: Seq<(String, JsonValue)>) -> Seq<Seq<char>> {
    if !obj_has_key(fields, "steps"@) {
        Seq::empty()
    } else if !(obj_get(fields, "steps"@) is Array) {
        seq!["Pipeline 'steps' must be an array"@]
    } else {
        steps_list_errors(obj_get(fields, "steps"@)->Array_0@)
    }
}

/// Every blocking finding of a pipeline definition, in rule order.
pub open spec fn pipeline_error_msgs(p: JsonValue) -> Seq<Seq<char>> {
    if !(p is Object) {
        seq!["Pipeline must be a JSON object"@]
    } else {
        pipeline_name_errors(p->Object_0@) + pipeline_version_errors(p->Object_0@)
            + pipeline_steps_errors(p->Object_0@)
    }
}

/// Every advisory finding of a pipeline definition: a present but
/// empty step list, and metadata that is not an object.
pub open spec fn pipeline_warning_msgs(p: JsonValue) -> Seq<Seq<char>> {
    if !(p is Object) {
        Seq::empty()
    } else {
        (if obj_has_key(p->Object_0@, "steps"@) && is_empty_array(
            obj_get(p->Object_0@, "steps"@),
        ) {
            seq!["Pipeline has no steps defined"@]
        } else {
            Seq::empty()
        }) + (if obj_has_key(p->Object_0@, "metadata"@) && !(obj_get(
            p->Object_0@,
            "metadata"@,
        ) is Object) {
            seq!["Pipeline 'metadata' should be an object"@]
        } else {
            Seq::empty()
        })
    }
}

proof fn lemma_steps_list_errors_step(steps: Seq<JsonValue>, i: int)
    requires
        0 <= i < steps.len(),
    ensures
        steps_list_errors(steps.take(i + 1)) == steps_list_errors(steps.take(i)) + step_errors(
            steps[i],
            i as nat,
        ),
{
    assert(steps.take(i + 1).drop_last() =~= steps.take(i));
    assert(steps.take(i + 1).last() == steps[i]);
}

/// Checks a pipeline definition: it must be an object with a non-empty
/// string `name` and a string `version`; steps, if given, must be an
/// array of objects each carrying a `type`; metadata, if given, should
/// be an object. Errors block the push, warnings do not.
pub fn validate_pipeline(pipeline: &JsonValue) -> (r: ValidationResult)
    ensures
        r.errors.deep_view() == pipeline_error_msgs(*pipeline),
        r.warnings.deep_view() == pipeline_warning_msgs(*pipeline),
        r.is_valid <==> pipeline_error_msgs(*pipeline).len() == 0,
{
    let mut result = ValidationResult::new();
    proof {
        assert(result.errors.deep_view() =~= Seq::<Seq<char>>::empty());
        assert(result.warnings.deep_view() =~= Seq::<Seq<char>>::empty());
    }
    let fields: &Vec<(String, JsonValue)> = match pipeline {
        JsonValue::Object(f) => f,
        _ => {
            result.add_error("Pipeline must be a JSON object".to_owned());
            proof {
                assert(result.errors.deep_view() =~= seq!["Pipeline must be a JSON object"@]);
            }
            return result;
        },
    };
    proof {
        assert(pipeline->Object_0@ == fields@);
    }
    // Required: name
    match obj_find(fields, "name") {
        None => {
            let ghost before = result.errors.deep_view();
            result.add_error("Pipeline must have a 'name' field".to_owned());
            proof {
                assert(result.errors.deep_view() =~= before.push(
                    "Pipeline must have a 'name' field"@,
                ));
            }
        },
        Some(v) => {
            let name_ok = match v {
                JsonValue::Text(s) => !s.as_str().is_empty(),
                _ => false,
            };
            if !name_ok {
                let ghost before = result.errors.deep_view();
                result.add_error("Pipeline 'name' must be a non-empty string".to_owned());
                proof {
                    assert(result.errors.deep_view() =~= before.push(
                        "Pipeline 'name' must be a non-empty string"@,
                    ));
                }
            }
        },
    }
    proof {
        assert(result.errors.deep_view() =~= pipeline_name_errors(fields@));
    }
    // Required: version
    match obj_find(fields, "version") {
        None => {
            let ghost before = result.errors.deep_view();
            result.add_error("Pipeline must have a 'version' field".to_owned());
            proof {
                assert(result.errors.deep_view() =~= before.push(
                    "Pipeline must have a 'version' field"@,
                ));
            }
        },
        Some(v) => {
            let version_ok = match v {
                JsonValue::Text(_) => true,
                _ => false,
            };
            if !version_ok {
                let ghost before = result.errors.deep_view();
                result.add_error("Pipeline 'version' must be a string".to_owned());
                proof {
                    assert(result.errors.deep_view() =~= before.push(
                        "Pipeline 'version' must be a string"@,
                    ));
                }
            }
        },
    }
    let ghost after_version = pipeline_name_errors(fields@) + pipeline_version_errors(fields@);
    proof {
        assert(result.errors.deep_view() =~= after_version);
    }
    // Optional: steps
    match obj_find(fields, "steps") {
        None => {
            proof {
                assert(result.errors.deep_view() =~= after_version + pipeline_steps_errors(
                    fields@,
                ));
            }
        },
        Some(v) => {
            match v {
                JsonValue::Array(steps) => {
                    if steps.len() == 0 {
                        let ghost wbefore = result.warnings.deep_view();
                        result.add_warning("Pipeline has no steps defined".to_owned());
                        proof {
                            assert(result.warnings.deep_view() =~= wbefore.push(
                                "Pipeline has no steps defined"@,
                            ));
                        }
                    }
                    let m = steps.len();
                    let mut j: usize = 0;
                    while j < m
                        invariant
                            m == steps@.len(),
                            j <= m,
                            result.errors.deep_view() == after_version + steps_list_errors(
                                steps@.take(j as int),
                            ),
                            result.warnings.deep_view() == (if m == 0 {
                                seq!["Pipeline has no steps defined"@]
                            } else {
                                Seq::<Seq<char>>::empty()
                            }),
                            result.is_valid <==> result.errors@.len() == 0,
                        decreases m - j,
                    {
                        let step = &steps[j];
                        match step {
                            JsonValue::Object(sf) => {
                                match obj_find(sf, "type") {
                                    None => {
                                        let mut msg = "Step ".to_owned();
                                        msg.append(usize_to_string(j).as_str());
                                        msg.append(" must have a 'type' field");
                                        let ghost before = result.errors.deep_view();
                                        proof {
                                            assert(msg@ == "Step "@ + dec_str(j as nat)
                                                + " must have a 'type' field"@);
                                        }
                                        result.add_error(msg);
                                        proof {
                                            assert(result.errors.deep_view() =~= before.push(
                                                msg@,
                                            ));
                                        }
                                    },
                                    Some(_) => {
                                        proof {
                                            assert(step_errors(steps@[j as int], j as nat)
                                                =~= Seq::<Seq<char>>::empty());
                                        }
                                    },
                                }
                            },
                            _ => {
                                let mut msg = "Step ".to_owned();
                                msg.append(usize_to_string(j).as_str());
                                msg.append(" must be an object");
                                let ghost before = result.errors.deep_view();
                                proof {
                                    assert(msg@ == "Step "@ + dec_str(j as nat)
                                        + " must be an object"@);
                                }
                                result.add_error(msg);
                                proof {
                                    assert(result.errors.deep_view() =~= before.push(msg@));
                                }
                            },
                        }
                        proof {
                            lemma_steps_list_errors_step(steps@, j as int);
                            assert(result.errors.deep_view() =~= after_version
                                + steps_list_errors(steps@.take(j + 1)));
                        }
                        j += 1;
                    }
                    proof {
                        assert(steps@.take(m as int) =~= steps@);
                        assert(obj_get(fields@, "steps"@)->Array_0@ == steps@);
                        assert(result.errors.deep_view() =~= after_version
                            + pipeline_steps_errors(fields@));
                    }
                },
                _ => {
                    let ghost before = result.errors.deep_view();
                    result.add_error("Pipeline 'steps' must be an array".to_owned());
                    proof {
                        assert(result.errors.deep_view() =~= before.push(
                            "Pipeline 'steps' must be an array"@,
                        ));
                        assert(result.errors.deep_view() =~= after_version
                            + pipeline_steps_errors(fields@));
                    }
                },
            }
        },
    }
    proof {
        assert(result.errors.deep_view() =~= pipeline_error_msgs(*pipeline));
    }
    // Optional: metadata
    match obj_find(fields, "metadata") {
        None => {
        },
        Some(v) => {
            let metadata_ok = match v {
                JsonValue::Object(_) => true,
                _ => false,
            };
            if !metadata_ok {
                let ghost wbefore = result.warnings.deep_view();
                result.add_warning("Pipeline 'metadata' should be an object".to_owned());
                proof {
                    assert(result.warnings.deep_view() =~= wbefore.push(
                        "Pipeline 'metadata' should be an object"@,
                    ));
                }
            }
        },
    }
    proof {
        assert(result.warnings.deep_view() =~= pipeline_warning_msgs(*pipeline));
        assert(result.errors@.len() == result.errors.deep_view().len());
    }
    result
}

} // verus!
