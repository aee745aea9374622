//! The decisions of the plant operations: edits that only the owner of a plant
//! may make, and what a client's measurement leads to (storing the moisture,
//! and asking the client to water where the moisture left its profile's
//! range). Operations that wait on the store or the broker in between are
//! state machines, as in `user_flow`.

use vstd::prelude::*;

use crate::client::{MeasurementDTO, WaterRequestDTO};
use crate::entity::{DbFailure, LoggedInUserDTO, NewPlantDto, PlantDto, PlantProfileDto};
use crate::error::{is_internal, ErrorResponse};
use crate::reading::{le, lt, reading_le, reading_lt};

verus! {

/// The reply to an edit by user `user_id`, given the owner that the store
/// names for the plant: only the owner may go on, anyone else (a plant that the store
/// does not know included) is forbidden.
pub open spec fn owner_check_post(owner: Result<Option<i32>, DbFailure>, user_id: i32, r: Result<(), ErrorResponse>) -> bool {
    match owner {
        Err(_) => r matches Err(e) && is_internal(e),
        Ok(o) => if o == Some(user_id) {
            r == Ok::<(), ErrorResponse>(())
        } else {
            r == Err::<(), ErrorResponse>(ErrorResponse::Forbidden(()))
        },
    }
}

/// Whether the user `user_id` may edit a plant whose owner the store gave as `owner`.
pub fn assert_user_owns_plant(owner: Result<Option<i32>, DbFailure>, user_id: i32) -> (r: Result<(), ErrorResponse>)
    ensures
        owner_check_post(owner, user_id, r),
{
    match owner {
        Err(f) => Err(ErrorResponse::from_db_failure(f)),
        Ok(o) => match o {
            Some(id) => if id == user_id {
                Ok(())
            } else {
                Err(ErrorResponse::Forbidden(()))
            },
            None => Err(ErrorResponse::Forbidden(())),
        },
    }
}

/// An edit of a plant.
pub enum PlantEdit {
    Delete,
    Update(NewPlantDto),
}

/// An edit of a plant by a logged-in user.
pub enum PlantEditFlow {
    /// Ask the store for the owner of `plant_id`, then call `on_owner`.
    CheckOwner { plant_id: i32, user_id: i32, edit: PlantEdit },
    /// Apply `change` to `target`, then call `on_applied`.
    Apply { target: i32, change: PlantEdit },
    /// The reply.
    Finished(Result<(), ErrorResponse>),
}

/// What follows the lookup of the owner.
pub open spec fn edit_on_owner_post(
    plant_id: i32,
    user_id: i32,
    edit: PlantEdit,
    owner: Result<Option<i32>, DbFailure>,
    r: PlantEditFlow,
) -> bool {
    match owner {
        Ok(Some(o)) if o == user_id => r == (PlantEditFlow::Apply { target: plant_id, change: edit }),
        _ => r matches PlantEditFlow::Finished(Err(e)) && owner_check_post(owner, user_id, Err(e)),
    }
}

/// What follows the edit.
pub open spec fn edit_on_applied_post(applied: Result<(), DbFailure>, r: PlantEditFlow) -> bool {
    match applied {
        Ok(()) => r == PlantEditFlow::Finished(Ok(())),
        Err(_) => r matches PlantEditFlow::Finished(Err(e)) && is_internal(e),
    }
}

impl PlantEditFlow {
    /// Starts the deletion of plant `id` by `user`.
    pub fn delete_plant(id: i32, user: &LoggedInUserDTO) -> (r: PlantEditFlow)
        ensures
            r == (PlantEditFlow::CheckOwner { plant_id: id, user_id: user.id, edit: PlantEdit::Delete }),
    {
        PlantEditFlow::CheckOwner { plant_id: id, user_id: user.id, edit: PlantEdit::Delete }
    }

    /// Starts the change of plant `id` to `new_plant_dto` by `user`.
    pub fn update_plant(id: i32, new_plant_dto: NewPlantDto, user: &LoggedInUserDTO) -> (r: PlantEditFlow)
        ensures
            r == (PlantEditFlow::CheckOwner { plant_id: id, user_id: user.id, edit: PlantEdit::Update(new_plant_dto) }),
    {
        PlantEditFlow::CheckOwner { plant_id: id, user_id: user.id, edit: PlantEdit::Update(new_plant_dto) }
    }

    /// Takes the owner that the store names for the plant.
    pub fn on_owner(self, owner: Result<Option<i32>, DbFailure>) -> (r: PlantEditFlow)
        requires
            self is CheckOwner,
        ensures
            edit_on_owner_post(self->plant_id, self->user_id, self->edit, owner, r),
    {
        match self {
            PlantEditFlow::CheckOwner { plant_id, user_id, edit } => match assert_user_owns_plant(owner, user_id) {
                Ok(()) => PlantEditFlow::Apply { target: plant_id, change: edit },
                Err(e) => PlantEditFlow::Finished(Err(e)),
            },
            other => other,
        }
    }

    /// Takes the outcome of the edit.
    pub fn on_applied(self, applied: Result<(), DbFailure>) -> (r: PlantEditFlow)
        requires
            self is Apply,
        ensures
            edit_on_applied_post(applied, r),
    {
        match applied {
            Ok(()) => PlantEditFlow::Finished(Ok(())),
            Err(f) => PlantEditFlow::Finished(Err(ErrorResponse::from_db_failure(f))),
        }
    }
}

/// A plant is changed or deleted only after the store named the user who asks
/// as its owner, and only that plant, with only the edit asked for.
pub proof fn lemma_only_owner_edits(
    plant_id: i32,
    user_id: i32,
    edit: PlantEdit,
    owner: Result<Option<i32>, DbFailure>,
    next: PlantEditFlow,
)
    requires
        edit_on_owner_post(plant_id, user_id, edit, owner, next),
        next is Apply,
    ensures
        owner == Ok::<Option<i32>, DbFailure>(Some(user_id)),
        next->target == plant_id,
        next->change == edit,
{
}

/// Whether a plant with soil moisture `moisture` needs a watering request under
/// `profile`: none (`None`) while the moisture lies strictly inside the
/// profile's range, else a request to open the valve exactly when the moisture
/// is at or below the lower bound (`Some(true)`) and to close it otherwise.
pub open spec fn water_request_for(moisture: u32, profile: PlantProfileDto) -> Option<bool> {
    if reading_lt(moisture, profile.max_moisture) && reading_lt(profile.min_moisture, moisture) {
        None
    } else {
        Some(reading_le(moisture, profile.min_moisture))
    }
}

/// Decides the watering request for a plant with soil moisture `moisture` under `profile`.
pub fn watering_request(moisture: u32, profile: &PlantProfileDto) -> (r: Option<bool>)
    ensures
        r == water_request_for(moisture, *profile),
        reading_lt(profile.min_moisture, moisture) && reading_lt(moisture, profile.max_moisture) ==> r is None,
        !(reading_lt(profile.min_moisture, moisture) && reading_lt(moisture, profile.max_moisture))
            ==> r == Some(reading_le(moisture, profile.min_moisture)),
{
    if lt(moisture, profile.max_moisture) && lt(profile.min_moisture, moisture) {
        return None;
    }
    Some(le(moisture, profile.min_moisture))
}

/// A valve is never asked to open for a moisture above the lower bound, and no
/// request at all goes out while the moisture lies strictly inside the range.
/// Outside that range a request always goes out, and it opens the valve
/// exactly when the moisture is at or below the lower bound; in particular,
/// every reading at or below the lower bound opens the valve.
pub proof fn lemma_watering_respects_profile(moisture: u32, profile: PlantProfileDto)
    ensures
        water_request_for(moisture, profile) == Some(true) ==> reading_le(moisture, profile.min_moisture),
        reading_lt(profile.min_moisture, moisture) && reading_lt(moisture, profile.max_moisture)
            ==> water_request_for(moisture, profile) is None,
        reading_le(profile.max_moisture, moisture) && reading_lt(profile.min_moisture, moisture)
            ==> water_request_for(moisture, profile) == Some(false),
        !(reading_lt(profile.min_moisture, moisture) && reading_lt(moisture, profile.max_moisture))
            ==> water_request_for(moisture, profile) == Some(reading_le(moisture, profile.min_moisture)),
        reading_le(moisture, profile.min_moisture) ==> water_request_for(moisture, profile) == Some(true),
{
}

/// What a client's report leads to.
pub enum MeasurementFlow {
    /// Store `moisture` for the plant with `uuid`, then call `on_stored`.
    StoreMoisture { uuid: String, moisture: u32 },
    /// Look up the profile of `plant`, then call `on_profile`.
    FindProfile { plant: PlantDto },
    /// Publish `request` to the clients, then call `on_published`.
    Publish { request: WaterRequestDTO },
    /// The outcome.
    Finished(Result<(), ErrorResponse>),
}

/// How a report is handled: a client's failure is only taken note of, a
/// measurement's moisture is stored.
pub open spec fn measurement_start_post(uuid: String, measurement: MeasurementDTO, r: MeasurementFlow) -> bool {
    match measurement {
        MeasurementDTO::Error(_) => r == MeasurementFlow::Finished(Ok(())),
        MeasurementDTO::Measurement { moisture, .. } => r == (MeasurementFlow::StoreMoisture { uuid, moisture }),
    }
}

/// What follows storing the moisture: a plant that the store does not know
/// ends the handling, a known one has its watering checked.
pub open spec fn measurement_on_stored_post(stored: Result<Option<PlantDto>, DbFailure>, r: MeasurementFlow) -> bool {
    match stored {
        Err(_) => r matches MeasurementFlow::Finished(Err(e)) && is_internal(e),
        Ok(None) => r == MeasurementFlow::Finished(Ok(())),
        Ok(Some(plant)) => r == (MeasurementFlow::FindProfile { plant }),
    }
}

/// What follows the lookup of the plant's profile: a missing profile is an
/// internal error; otherwise a request goes out as `water_request_for` decides,
/// addressed to the plant's client.
pub open spec fn measurement_on_profile_post(
    plant: PlantDto,
    profile: Result<Option<PlantProfileDto>, DbFailure>,
    r: MeasurementFlow,
) -> bool {
    match profile {
        Ok(Some(p)) => match water_request_for(plant.soil_moisture, p) {
            None => r == MeasurementFlow::Finished(Ok(())),
            Some(active) => r == (MeasurementFlow::Publish {
                request: WaterRequestDTO { uuid: plant.uuid, set_active: active },
            }),
        },
        _ => r matches MeasurementFlow::Finished(Err(e)) && is_internal(e),
    }
}

/// What follows the publication of a request.
pub open spec fn measurement_on_published_post(published: Result<(), ()>, r: MeasurementFlow) -> bool {
    match published {
        Ok(()) => r == MeasurementFlow::Finished(Ok(())),
        Err(()) => r matches MeasurementFlow::Finished(Err(e)) && is_internal(e),
    }
}

impl MeasurementFlow {
    /// Starts the handling of the report `measurement_dto` of the client `uuid`.
    pub fn update_moisture(uuid: String, measurement_dto: &MeasurementDTO) -> (r: MeasurementFlow)
        ensures
            measurement_start_post(uuid, *measurement_dto, r),
    {
        match measurement_dto {
            MeasurementDTO::Error(_) => MeasurementFlow::Finished(Ok(())),
            MeasurementDTO::Measurement { moisture, .. } => MeasurementFlow::StoreMoisture { uuid, moisture: *moisture },
        }
    }

    /// Starts the watering check of a plant as stored.
    pub fn check_for_watering(plant_dto: PlantDto) -> (r: MeasurementFlow)
        ensures
            r == (MeasurementFlow::FindProfile { plant: plant_dto }),
    {
        MeasurementFlow::FindProfile { plant: plant_dto }
    }

    /// Takes the plant as stored with its new moisture (none where no plant has that uuid).
    pub fn on_stored(self, stored: Result<Option<PlantDto>, DbFailure>) -> (r: MeasurementFlow)
        requires
            self is StoreMoisture,
        ensures
            measurement_on_stored_post(stored, r),
    {
        match stored {
            Err(f) => MeasurementFlow::Finished(Err(ErrorResponse::from_db_failure(f))),
            Ok(None) => MeasurementFlow::Finished(Ok(())),
            Ok(Some(plant)) => MeasurementFlow::check_for_watering(plant),
        }
    }

    /// Takes the profile of the plant (none where the store does not know it).
    pub fn on_profile(self, profile: Result<Option<PlantProfileDto>, DbFailure>) -> (r: MeasurementFlow)
        requires
            self is FindProfile,
        ensures
            measurement_on_profile_post(self->plant, profile, r),
    {
        match self {
            MeasurementFlow::FindProfile { plant } => match profile {
                Err(f) => MeasurementFlow::Finished(Err(ErrorResponse::from_db_failure(f))),
                Ok(None) => MeasurementFlow::Finished(Err(ErrorResponse::InternalServerError(()))),
                Ok(Some(p)) => match watering_request(plant.soil_moisture, &p) {
                    None => MeasurementFlow::Finished(Ok(())),
                    Some(active) => MeasurementFlow::Publish {
                        request: WaterRequestDTO { uuid: plant.uuid, set_active: active },
                    },
                },
            },
            other => other,
        }
    }

    /// Takes the outcome of the publication (`Err(())` where the broker refused it).
    pub fn on_published(self, published: Result<(), ()>) -> (r: MeasurementFlow)
        requires
            self is Publish,
        ensures
            measurement_on_published_post(published, r),
    {
        match published {
            Ok(()) => MeasurementFlow::Finished(Ok(())),
            Err(()) => MeasurementFlow::Finished(Err(ErrorResponse::InternalServerError(()))),
        }
    }
}

/// A watering request goes out only after a measurement was stored for a
/// known plant and its profile was found; it is addressed to that plant's
/// client, and it opens the valve exactly when the stored moisture is at or
/// below the profile's lower bound, and never while the moisture lies strictly
/// inside the profile's range.
pub proof fn lemma_water_request_follows_profile(
    uuid: String,
    measurement: MeasurementDTO,
    first: MeasurementFlow,
    stored: Result<Option<PlantDto>, DbFailure>,
    second: MeasurementFlow,
    profile: Result<Option<PlantProfileDto>, DbFailure>,
    third: MeasurementFlow,
)
    requires
        measurement_start_post(uuid, measurement, first),
        first is StoreMoisture,
        measurement_on_stored_post(stored, second),
        second is FindProfile,
        measurement_on_profile_post(second->plant, profile, third),
        third is Publish,
    ensures
        measurement matches MeasurementDTO::Measurement { .. },
        stored matches Ok(Some(plant)) && profile matches Ok(Some(p)) && {
            &&& third->request.uuid == plant.uuid
            &&& third->request.set_active == reading_le(plant.soil_moisture, p.min_moisture)
            &&& !(reading_lt(p.min_moisture, plant.soil_moisture) && reading_lt(plant.soil_moisture, p.max_moisture))
        },
{
}

} // verus!
