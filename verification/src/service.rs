//! The two operations of the service, recording a reading and fetching one
//! by its identifier, as the decisions made before and after the store is
//! asked.

use vstd::prelude::*;
use crate::error::{ServiceError, StoreFailure, STATUS_CREATED, STATUS_OK};
use crate::measurement::{
    entity_of, output_of, OutputView, WheightMeasurementEntity, WheightMeasurementInput,
    WheightMeasurementOutput,
};
use crate::object_id::{
    decode_hex, encode_hex, is_object_id_text, lemma_hex_round_trip, ObjectId,
};
use crate::quantity::Quantity;

verus! {

/// What a request is answered with.
#[derive(Clone, Debug, PartialEq, Eq)]
pub enum Reply {
    /// A reading was recorded under the identifier with this text form.
    Created { id: String },
    /// The reading asked for.
    Found(WheightMeasurementOutput),
    /// The request was not served.
    Failed(ServiceError),
}

/// What a reply holds, with texts as sequences of characters.
pub ghost enum ReplyView {
    Created { id: Seq<char> },
    Found(OutputView),
    Failed(ServiceError),
}

impl View for Reply {
    type V = ReplyView;

    open spec fn view(&self) -> ReplyView {
        match self {
            Reply::Created { id } => ReplyView::Created { id: id@ },
            Reply::Found(output) => ReplyView::Found(output@),
            Reply::Failed(error) => ReplyView::Failed(*error),
        }
    }
}

impl ReplyView {
    /// The status of the reply.
    pub open spec fn status(self) -> u16 {
        match self {
            ReplyView::Created { .. } => STATUS_CREATED,
            ReplyView::Found(_) => STATUS_OK,
            ReplyView::Failed(error) => error.spec_status(),
        }
    }
}

impl Reply {
    /// The status of the reply.
    pub fn status(&self) -> (status: u16)
        ensures
            status == self@.status(),
    {
        match self {
            Reply::Created { .. } => STATUS_CREATED,
            Reply::Found(_) => STATUS_OK,
            Reply::Failed(error) => error.status(),
        }
    }
}

/// What the store holds: the stored readings, each under the bytes of its
/// identifier.
pub type Stored = Map<Seq<u8>, WheightMeasurementEntity>;

/// The answer of a store that holds `stored` and works, when asked for the
/// reading with the identifier `id`.
pub open spec fn lookup(stored: Stored, id: Seq<u8>) -> Result<
    Option<WheightMeasurementEntity>,
    StoreFailure,
> {
    if stored.dom().contains(id) {
        Ok(Some(stored[id]))
    } else {
        Ok(None)
    }
}

/// The reply to a fetch, given what the store answered.
pub open spec fn fetch_reply(
    found: Result<Option<WheightMeasurementEntity>, StoreFailure>,
) -> ReplyView {
    match found {
        Ok(Some(entity)) => ReplyView::Found(output_of(entity)),
        Ok(None) => ReplyView::Failed(ServiceError::NotFound),
        Err(failure) => ReplyView::Failed(failure.spec_error()),
    }
}

/// The reply to a request to record a reading, given what the store
/// answered to the insert.
pub open spec fn record_reply(inserted: Result<ObjectId, StoreFailure>) -> ReplyView {
    match inserted {
        Ok(id) => ReplyView::Created { id: encode_hex(id@) },
        Err(failure) => ReplyView::Failed(failure.spec_error()),
    }
}

/// The reply to a fetch of the identifier written `text` from a store that
/// holds `stored` and works.
pub open spec fn get_by_id(stored: Stored, text: Seq<char>) -> ReplyView {
    if is_object_id_text(text) {
        fetch_reply(lookup(stored, decode_hex(text)))
    } else {
        ReplyView::Failed(ServiceError::Validation)
    }
}

/// First step of a fetch: reads the identifier. On `Ok` the store is to be
/// asked for the reading with that identifier; on `Err`, which is
/// `Validation` and comes exactly when `text` is not the text form of an
/// identifier, the request ends without the store being asked.
pub fn begin_get(text: &str) -> (step: Result<ObjectId, ServiceError>)
    ensures
        step.is_ok() == is_object_id_text(text@),
        step matches Ok(id) ==> id@ == decode_hex(text@),
        step matches Err(error) ==> error == ServiceError::Validation,
{
    match ObjectId::parse_str(text) {
        Some(id) => Ok(id),
        None => Err(ServiceError::Validation),
    }
}

/// Last step of a fetch: the reply for what the store answered.
pub fn finish_get(found: Result<Option<WheightMeasurementEntity>, StoreFailure>) -> (reply: Reply)
    ensures
        reply@ == fetch_reply(found),
{
    match found {
        Ok(Some(entity)) => Reply::Found(WheightMeasurementOutput::from_entity(entity)),
        Ok(None) => Reply::Failed(ServiceError::NotFound),
        Err(failure) => Reply::Failed(failure.error()),
    }
}

/// First step of recording a reading: checks it and gives it an identifier.
/// `fat_kg` and `muscle_percentage` are the quantities derived from the
/// reading. On `Ok` the reading is to be inserted into the store as given;
/// on `Err`, which is `Validation` and comes exactly when the weight is
/// zero, the request ends without the store being asked.
pub fn begin_create(
    input: &WheightMeasurementInput,
    fat_kg: Quantity,
    muscle_percentage: Quantity,
) -> (step: Result<WheightMeasurementEntity, ServiceError>)
    ensures
        step.is_ok() == !input.wheight_kg.spec_is_zero(),
        step matches Ok(entity) ==> entity == entity_of(
            entity._id,
            *input,
            fat_kg,
            muscle_percentage,
        ),
        step matches Err(error) ==> error == ServiceError::Validation,
{
    if input.wheight_kg.is_zero() {
        Err(ServiceError::Validation)
    } else {
        Ok(WheightMeasurementEntity::new(ObjectId::generate(), input, fat_kg, muscle_percentage))
    }
}

/// Last step of recording a reading: the reply for what the store answered
/// to the insert, `Ok` holding the identifier it inserted under.
pub fn finish_create(inserted: Result<ObjectId, StoreFailure>) -> (reply: Reply)
    ensures
        reply@ == record_reply(inserted),
{
    match inserted {
        Ok(id) => Reply::Created { id: id.to_hex() },
        Err(failure) => Reply::Failed(failure.error()),
    }
}

/// A reading that was recorded is fetched back as it was submitted. After
/// the store has inserted the reading made of `input` under `id`, a fetch
/// of the identifier that the reply to the recording carries finds a
/// report whose fields other than the reserved ones are those of `input`,
/// the derived quantities included.
pub proof fn lemma_create_then_get(
    stored: Stored,
    id: ObjectId,
    input: WheightMeasurementInput,
    fat_kg: Quantity,
    muscle_percentage: Quantity,
)
    ensures
        ({
            let entity = entity_of(id, input, fat_kg, muscle_percentage);
            let after = stored.insert(id@, entity);
            &&& record_reply(Ok(id)) matches ReplyView::Created { id: text }
            &&& get_by_id(after, text) matches ReplyView::Found(output)
            &&& get_by_id(after, text).status() == STATUS_OK
            &&& output.id == text
            &&& output.date == input.date
            &&& output.wheight_kg == input.wheight_kg
            &&& output.imc == input.imc
            &&& output.fat_percentage == input.fat_percentage
            &&& output.water_percentage == input.water_percentage
            &&& output.protein_percentage == input.protein_percentage
            &&& output.metabolism_kcal == input.metabolism_kcal
            &&& output.visceral_fat_index == input.visceral_fat_index
            &&& output.muscle_kg == input.muscle_kg
            &&& output.bone_kg == input.bone_kg
            &&& output.metabolic_age == input.metabolic_age
            &&& output.fat_kg == fat_kg
            &&& output.muscle_percentage == muscle_percentage
        }),
{
    lemma_hex_round_trip(id@);
}

/// Fetching is repeatable: two fetches of one identifier from a store that
/// holds the same readings both times get the same reply.
pub proof fn lemma_get_repeatable(
    stored: Stored,
    text: Seq<char>,
    first: ReplyView,
    second: ReplyView,
)
    requires
        first == get_by_id(stored, text),
        second == get_by_id(stored, text),
    ensures
        first == second,
{
}

/// A fetch of a well-formed identifier under which the store holds nothing
/// is answered with `NotFound`: status 404 and the message "Not Found".
pub proof fn lemma_get_absent(stored: Stored, text: Seq<char>)
    requires
        is_object_id_text(text),
        !stored.dom().contains(decode_hex(text)),
    ensures
        get_by_id(stored, text) == ReplyView::Failed(ServiceError::NotFound),
        get_by_id(stored, text).status() == 404,
        ServiceError::NotFound.spec_message() == "Not Found"@,
{
}

/// A fetch of a malformed identifier is answered with `Validation`, status
/// 400, whatever the store holds.
pub proof fn lemma_get_malformed(stored: Stored, text: Seq<char>)
    requires
        !is_object_id_text(text),
    ensures
        get_by_id(stored, text) == ReplyView::Failed(ServiceError::Validation),
        get_by_id(stored, text).status() == 400,
{
}

/// Every reply has one of the six statuses, and a failed one never has a
/// status of success.
pub proof fn lemma_reply_status(reply: ReplyView)
    ensures
        reply.status() == 200 || reply.status() == 201 || reply.status() == 400
            || reply.status() == 404 || reply.status() == 500 || reply.status() == 503,
        reply is Failed <==> reply.status() >= 400,
{
}

} // verus!
