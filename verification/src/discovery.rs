//! The search for the characteristic on a device, and what it finds.
//!
//! The client asks for one thing at a time: the services, the UUID of a
//! service, the characteristics of a service with the wanted UUID, the UUID
//! of a characteristic. Here a device is a value, the search is run
//! against it to its end, and the end is shown to be the first
//! characteristic with the wanted UUID in a service with the wanted UUID.

use vstd::prelude::*;

use crate::client::{Action, Event, Handle, Model, State};
use crate::error::{Error, TransportError};
use crate::gatt::GattIds;

verus! {

/// A service of a device: its UUID and the UUIDs of its characteristics,
/// in the order in which the device lists them.
pub struct Service {
    pub uuid: u128,
    pub characteristics: Seq<u128>,
}

/// Whether a device can be listed: the number of its services, and of the
/// characteristics of each, is a number the transport can report.
pub open spec fn listable(device: Seq<Service>) -> bool {
    &&& device.len() <= usize::MAX
    &&& forall|i: int|
        0 <= i < device.len() ==> (#[trigger] device[i]).characteristics.len() <= usize::MAX
}

/// What a device answers to the requests of the search.
pub open spec fn answer(device: Seq<Service>, request: Action) -> Event {
    match request {
        Action::ListServices => Event::Services(device.len() as usize),
        Action::ServiceUuid(service) => Event::Uuid(device[service as int].uuid),
        Action::ListCharacteristics(service) => Event::Characteristics(
            device[service as int].characteristics.len() as usize,
        ),
        Action::CharacteristicUuid(service, characteristic) => Event::Uuid(
            device[service as int].characteristics[characteristic as int],
        ),
        _ => Event::TransportError,
    }
}

/// Whether the client is searching.
pub open spec fn searching(state: State) -> bool {
    state is ListingServices || state is ReadingService || state is ListingCharacteristics
        || state is ReadingCharacteristic
}

/// The request that a searching client waits to be answered.
pub open spec fn request_of(state: State) -> Action {
    match state {
        State::ReadingService { service, .. } => Action::ServiceUuid(service),
        State::ListingCharacteristics { service, .. } => Action::ListCharacteristics(service),
        State::ReadingCharacteristic { service, characteristic, .. } => Action::CharacteristicUuid(
            service,
            characteristic,
        ),
        _ => Action::ListServices,
    }
}

/// How much of the search is left at most: the services from the one in
/// hand on, whether the characteristics of the one in hand are still to be
/// listed, and the characteristics from the one in hand on.
pub open spec fn left(state: State) -> (int, int, int) {
    match state {
        State::ListingServices => (usize::MAX + 1, 0, 0),
        State::ReadingService { service, services } => (services - service, 2, 0),
        State::ListingCharacteristics { service, services } => (services - service, 1, 0),
        State::ReadingCharacteristic { service, services, characteristic, characteristics } => (
            services - service,
            0,
            characteristics - characteristic,
        ),
        _ => (0, 0, 0),
    }
}

/// The client and the outcome at the end of the search, when every
/// request is answered by the device.
pub open spec fn search(model: Model, device: Seq<Service>) -> (Model, Action)
    decreases left(model.state).0, left(model.state).1, left(model.state).2,
    when searching(model.state) && model.state.bounded()
{
    let (next, then) = model.step(answer(device, request_of(model.state)));
    if searching(next.state) {
        search(next, device)
    } else {
        (next, then)
    }
}

/// What a searching client asks for is the request that it then waits to
/// be answered: the search above answers what the client asked.
pub proof fn lemma_search_asks_its_request(model: Model, event: Event)
    requires
        searching(model.step(event).0.state),
    ensures
        model.step(event).1 == request_of(model.step(event).0.state),
{
}

/// Whether the characteristic at a place of the device is the wanted one:
/// it has the wanted UUID, and so has its service.
pub open spec fn is_match(
    device: Seq<Service>,
    ids: GattIds,
    service: int,
    characteristic: int,
) -> bool {
    &&& 0 <= service < device.len()
    &&& device[service].uuid == ids.service
    &&& 0 <= characteristic < device[service].characteristics.len()
    &&& device[service].characteristics[characteristic] == ids.characteristic
}

/// Whether no wanted characteristic stands before a place of the device,
/// in the order in which the device lists services and characteristics.
pub open spec fn none_before(
    device: Seq<Service>,
    ids: GattIds,
    service: int,
    characteristic: int,
) -> bool {
    forall|i: int, j: int| #[trigger]
        is_match(device, ids, i, j) ==> i > service || (i == service && j >= characteristic)
}

/// Whether the device has no wanted characteristic.
pub open spec fn no_match(device: Seq<Service>, ids: GattIds) -> bool {
    forall|i: int, j: int| !#[trigger] is_match(device, ids, i, j)
}

/// Whether a handle is the place of the first wanted characteristic.
pub open spec fn first_match(device: Seq<Service>, ids: GattIds, handle: Handle) -> bool {
    &&& is_match(device, ids, handle.service as int, handle.characteristic as int)
    &&& none_before(device, ids, handle.service as int, handle.characteristic as int)
}

/// What the search ends in on a device: the client is ready and holds the
/// place of the first wanted characteristic, or the device has none and
/// the client has failed with `CharacteristicNotFound`.
pub open spec fn found(model: Model, device: Seq<Service>, end: (Model, Action)) -> bool {
    match end.1 {
        Action::Connected(handle) => {
            &&& first_match(device, model.ids, handle)
            &&& end.0 == Model { state: State::Ready, handle: Some(handle), ..model }
        },
        Action::Fail(error) => {
            &&& no_match(device, model.ids)
            &&& error == Error::Transport(TransportError::CharacteristicNotFound)
            &&& end.0 == model.fail(error).0
        },
        _ => false,
    }
}

/// Whether a searching client stands where the device says: the counts it
/// holds are those of the device, the service in hand has the wanted UUID
/// once its characteristics are asked for, and no wanted characteristic
/// stands before the place in hand.
pub open spec fn on_track(model: Model, device: Seq<Service>) -> bool {
    match model.state {
        State::ListingServices => true,
        State::ReadingService { service, services } => {
            &&& services == device.len()
            &&& service < services
            &&& none_before(device, model.ids, service as int, 0)
        },
        State::ListingCharacteristics { service, services } => {
            &&& services == device.len()
            &&& service < services
            &&& device[service as int].uuid == model.ids.service
            &&& none_before(device, model.ids, service as int, 0)
        },
        State::ReadingCharacteristic { service, services, characteristic, characteristics } => {
            &&& services == device.len()
            &&& service < services
            &&& device[service as int].uuid == model.ids.service
            &&& characteristics == device[service as int].characteristics.len()
            &&& characteristic < characteristics
            &&& none_before(device, model.ids, service as int, characteristic as int)
        },
        _ => false,
    }
}

/// From wherever the search stands on a device, it ends in what is to be
/// found there.
pub proof fn lemma_search_from(model: Model, device: Seq<Service>)
    requires
        listable(device),
        on_track(model, device),
    ensures
        found(model, device, search(model, device)),
    decreases left(model.state).0, left(model.state).1, left(model.state).2,
{
    let ids = model.ids;
    let (next, then) = model.step(answer(device, request_of(model.state)));
    if searching(next.state) {
        assert(on_track(next, device)) by {
            if next.state is ReadingService {
                let service = next.state->ReadingService_service;
                assert forall|i: int, j: int| #[trigger]
                    is_match(device, ids, i, j) implies i > service || (i == service && j
                    >= 0) by {}
            } else if next.state is ReadingCharacteristic {
                let service = next.state->ReadingCharacteristic_service;
                let characteristic = next.state->ReadingCharacteristic_characteristic;
                assert forall|i: int, j: int| #[trigger]
                    is_match(device, ids, i, j) implies i > service || (i == service && j
                    >= characteristic) by {}
            }
        }
        lemma_search_from(next, device);
    } else if then is Fail {
        assert forall|i: int, j: int| !#[trigger] is_match(device, ids, i, j) by {}
    }
}

/// The search finds the first wanted characteristic. On every device, a
/// client that has begun to list the services ends ready, with the place
/// of the first characteristic that has the wanted UUID and stands in a
/// service with the wanted UUID, or, if the device has no such
/// characteristic, ends failed with `CharacteristicNotFound`.
pub proof fn lemma_search_finds_first(model: Model, device: Seq<Service>)
    requires
        listable(device),
        model.state is ListingServices,
    ensures
        found(model, device, search(model, device)),
{
    lemma_search_from(model, device);
}

} // verus!
