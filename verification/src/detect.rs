//! Resolution of the device identity.
//!
//! The resolver asks up to three questions of the management-data provider,
//! one at a time. Asking is the caller's part: [`detect_device`] takes the
//! reply to the pending question and says what comes next. A machine of
//! another vendor is settled after the first reply, so that no
//! vendor-specific question is ever put to it.

use vstd::prelude::*;
use crate::errors::{message_of, ControlError};
use crate::models::{series_supported, LaptopModel, Series};
use crate::text::{join, contains, has_substring, to_uppercase, uppercase_of};

verus! {

/// A question put to the management-data provider.
#[derive(Debug, Clone, Copy, PartialEq, Eq, Structural)]
pub enum DetectQuery {
    Manufacturer,
    Model,
    BiosVersion,
}

/// How far a resolution has come: which reply it waits for, and what it
/// has learned.
#[derive(Debug, Clone)]
pub enum Detection {
    AwaitManufacturer,
    AwaitModel { manufacturer: String },
    AwaitBios { manufacturer: String, model_name: String },
}

/// What follows a reply.
#[derive(Debug, Clone)]
pub enum DetectStep {
    /// Put the pending question of this state and come back with the reply.
    Ask(Detection),
    /// The identity is resolved.
    Done(LaptopModel),
    /// A query failed; the resolver guesses nothing.
    Failed(ControlError),
}

/// The family that an upper-case model name belongs to. The tokens are
/// tried in a fixed order, so a name that holds several belongs to the
/// first.
pub open spec fn series_of_upper(upper: Seq<char>) -> Series {
    if has_substring(upper, "LEGION"@) {
        Series::Legion
    } else if has_substring(upper, "LOQ"@) {
        Series::LOQ
    } else if has_substring(upper, "IDEAPAD"@) {
        Series::IdeaPad
    } else {
        Series::Unknown
    }
}

/// Whether an upper-case manufacturer string names the vendor.
pub open spec fn is_vendor_upper(upper: Seq<char>) -> bool {
    has_substring(upper, "LENOVO"@)
}

/// The name under which a failed query is reported.
pub open spec fn query_name(query: DetectQuery) -> Seq<char> {
    match query {
        DetectQuery::Manufacturer => "manufacturer"@,
        DetectQuery::Model => "model"@,
        DetectQuery::BiosVersion => "bios-version"@,
    }
}

/// The question that a state waits on.
pub open spec fn pending_of(state: Detection) -> DetectQuery {
    match state {
        Detection::AwaitManufacturer => DetectQuery::Manufacturer,
        Detection::AwaitModel { .. } => DetectQuery::Model,
        Detection::AwaitBios { .. } => DetectQuery::BiosVersion,
    }
}

/// The identity reported for a machine of another vendor.
pub open spec fn is_foreign_identity(model: LaptopModel, manufacturer: String) -> bool {
    &&& model.manufacturer == manufacturer
    &&& model.model_name@ == "Unknown"@
    &&& model.bios_version@ == "Unknown"@
    &&& model.series == Series::Unknown
    &&& !model.supported
}

/// The step that [`detect_device`] takes from `state` on `reply`.
pub open spec fn is_detect_step(
    state: Detection,
    reply: Result<String, ControlError>,
    step: DetectStep,
) -> bool {
    match reply {
        Err(error) => step matches DetectStep::Failed(ControlError::TransportFailure(text))
            && text@ == query_name(pending_of(state)) + ": "@ + message_of(error),
        Ok(answer) => match state {
            Detection::AwaitManufacturer => if is_vendor_upper(uppercase_of(answer@)) {
                step == DetectStep::Ask(Detection::AwaitModel { manufacturer: answer })
            } else {
                step matches DetectStep::Done(model) && is_foreign_identity(model, answer)
            },
            Detection::AwaitModel { manufacturer } => step == DetectStep::Ask(
                Detection::AwaitBios { manufacturer, model_name: answer },
            ),
            Detection::AwaitBios { manufacturer, model_name } => {
                let series = series_of_upper(uppercase_of(model_name@));
                step == DetectStep::Done(
                    LaptopModel {
                        manufacturer,
                        model_name,
                        series,
                        bios_version: answer,
                        supported: series_supported(series),
                    },
                )
            },
        },
    }
}

impl DetectQuery {
    /// The name under which a failure of this query is reported.
    pub fn name(&self) -> (name: &'static str)
        ensures
            name@ == query_name(*self),
    {
        match self {
            DetectQuery::Manufacturer => "manufacturer",
            DetectQuery::Model => "model",
            DetectQuery::BiosVersion => "bios-version",
        }
    }
}

impl Detection {
    /// The state in which every resolution begins.
    pub fn start() -> (state: Detection)
        ensures
            state == Detection::AwaitManufacturer,
    {
        Detection::AwaitManufacturer
    }

    /// The question to put in this state.
    pub fn pending_query(&self) -> (query: DetectQuery)
        ensures
            query == pending_of(*self),
    {
        match self {
            Detection::AwaitManufacturer => DetectQuery::Manufacturer,
            Detection::AwaitModel { .. } => DetectQuery::Model,
            Detection::AwaitBios { .. } => DetectQuery::BiosVersion,
        }
    }
}

/// Classifies a model name that is already in upper case.
pub fn classify_upper(upper: &str) -> (series: Series)
    ensures
        series == series_of_upper(upper@),
{
    if contains(upper, "LEGION") {
        Series::Legion
    } else if contains(upper, "LOQ") {
        Series::LOQ
    } else if contains(upper, "IDEAPAD") {
        Series::IdeaPad
    } else {
        Series::Unknown
    }
}

/// Classifies a model name, whatever its case.
pub fn determine_series(model: &str) -> (series: Series)
    ensures
        series == series_of_upper(uppercase_of(model@)),
{
    let upper = to_uppercase(model);
    classify_upper(upper.as_str())
}

/// Whether a manufacturer string names the vendor, whatever its case.
pub fn is_vendor(manufacturer: &str) -> (vendor: bool)
    ensures
        vendor == is_vendor_upper(uppercase_of(manufacturer@)),
{
    let upper = to_uppercase(manufacturer);
    contains(upper.as_str(), "LENOVO")
}

/// Takes the reply to the pending question of `state` and says what comes
/// next: another question, the resolved identity, or the failure.
pub fn detect_device(state: Detection, reply: Result<String, ControlError>) -> (step: DetectStep)
    ensures
        is_detect_step(state, reply, step),
        step matches DetectStep::Done(model) ==> model.wf(),
        (state is AwaitManufacturer && reply is Ok && !is_vendor_upper(
            uppercase_of(reply->Ok_0@),
        )) ==> (step matches DetectStep::Done(model) && !model.supported),
{
    match reply {
        Err(error) => {
            let head = join(state.pending_query().name(), ": ");
            let detail = error.message();
            let text = join(head.as_str(), detail.as_str());
            DetectStep::Failed(ControlError::TransportFailure(text))
        },
        Ok(answer) => match state {
            Detection::AwaitManufacturer => {
                if is_vendor(answer.as_str()) {
                    DetectStep::Ask(Detection::AwaitModel { manufacturer: answer })
                } else {
                    DetectStep::Done(
                        LaptopModel {
                            manufacturer: answer,
                            model_name: "Unknown".to_string(),
                            series: Series::Unknown,
                            bios_version: "Unknown".to_string(),
                            supported: false,
                        },
                    )
                }
            },
            Detection::AwaitModel { manufacturer } => DetectStep::Ask(
                Detection::AwaitBios { manufacturer, model_name: answer },
            ),
            Detection::AwaitBios { manufacturer, model_name } => {
                let series = determine_series(model_name.as_str());
                let supported = series.has_known_controls();
                DetectStep::Done(
                    LaptopModel {
                        manufacturer,
                        model_name,
                        series,
                        bios_version: answer,
                        supported,
                    },
                )
            },
        },
    }
}

/// A model name that holds the tokens of two families belongs to the one
/// that is tried first, whatever else the name holds.
pub proof fn law_family_precedence(upper: Seq<char>)
    ensures
        has_substring(upper, "LEGION"@) ==> series_of_upper(upper) == Series::Legion,
        has_substring(upper, "LOQ"@) && !has_substring(upper, "LEGION"@) ==> series_of_upper(upper)
            == Series::LOQ,
        has_substring(upper, "LEGION"@) && has_substring(upper, "LOQ"@) ==> series_of_upper(upper)
            == Series::Legion,
        has_substring(upper, "LOQ"@) && has_substring(upper, "IDEAPAD"@) ==> series_of_upper(upper)
            != Series::IdeaPad,
{
}

/// After the manufacturer's reply the resolver asks on only if the reply
/// names the vendor. For any other manufacturer the resolution is over at
/// once, with an unsupported identity of unknown family, and no further
/// question is put.
pub proof fn law_foreign_vendor_is_settled(answer: String, step: DetectStep)
    requires
        is_detect_step(Detection::AwaitManufacturer, Ok(answer), step),
    ensures
        step is Ask ==> is_vendor_upper(uppercase_of(answer@)),
        !is_vendor_upper(uppercase_of(answer@)) ==> (step matches DetectStep::Done(model)
            && !model.supported && model.series == Series::Unknown && model.wf()),
        !(step is Failed),
{
}

/// An identity is reported as supported exactly when its family is one of
/// the two whose control surfaces are known.
pub proof fn law_supported_iff_known_family(
    state: Detection,
    reply: Result<String, ControlError>,
    step: DetectStep,
)
    requires
        is_detect_step(state, reply, step),
    ensures
        step matches DetectStep::Done(model) ==> (model.supported <==> (model.series
            == Series::Legion || model.series == Series::LOQ)),
{
}

} // verus!
