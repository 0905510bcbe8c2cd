//! The endpoint binder: collects the device's enumerated endpoints into the
//! six channel slots and produces a complete session, or fails.  Partial
//! binding never escapes as a usable session.

use vstd::prelude::*;
use crate::endpoints::Direction;
use crate::endpoints::EndpointRef;
use crate::endpoints::ProtocolType;
use crate::endpoints::channel_for;
use crate::endpoints::channel_of;
use crate::errors::FlirError;
use crate::session::Channel;
use crate::session::FlirOne;

verus! {

/// The endpoint belongs to one of the six slots of the numbering scheme.
pub open spec fn classified(e: EndpointRef) -> bool {
    channel_of(e.direction, e.number) is Some
}

/// Every enumerated endpoint belongs to a slot of the numbering scheme.
pub open spec fn all_classified(s: Seq<EndpointRef>) -> bool {
    forall|i: int| 0 <= i < s.len() ==> classified(s[i])
}

/// Some enumerated endpoint carries this direction and number.
pub open spec fn has_slot(s: Seq<EndpointRef>, direction: Direction, number: u8) -> bool {
    exists|i: int| 0 <= i < s.len() && s[i].direction == direction && s[i].number == number
}

/// All six required slots occur somewhere in the enumeration.
pub open spec fn complete(s: Seq<EndpointRef>) -> bool {
    &&& has_slot(s, Direction::In, 1)
    &&& has_slot(s, Direction::Out, 2)
    &&& has_slot(s, Direction::In, 3)
    &&& has_slot(s, Direction::Out, 4)
    &&& has_slot(s, Direction::In, 5)
    &&& has_slot(s, Direction::Out, 6)
}

/// The error that an incomplete but fully classified enumeration earns: the
/// first empty slot in the fixed check order config, frame, fileio.
pub open spec fn missing_slot_error(s: Seq<EndpointRef>) -> FlirError {
    if !has_slot(s, Direction::In, 1) {
        FlirError::MissingEndpoint(ProtocolType::CONFIG, Direction::In)
    } else if !has_slot(s, Direction::Out, 2) {
        FlirError::MissingEndpoint(ProtocolType::CONFIG, Direction::Out)
    } else if !has_slot(s, Direction::In, 5) {
        FlirError::MissingEndpoint(ProtocolType::FRAME, Direction::In)
    } else if !has_slot(s, Direction::Out, 6) {
        FlirError::MissingEndpoint(ProtocolType::FRAME, Direction::Out)
    } else if !has_slot(s, Direction::In, 3) {
        FlirError::MissingEndpoint(ProtocolType::FILEIO, Direction::In)
    } else {
        FlirError::MissingEndpoint(ProtocolType::FILEIO, Direction::Out)
    }
}

/// Everything `bind_endpoints` promises of its result, over the enumerated
/// sequence alone: success exactly on classified and complete enumerations,
/// a well-formed session drawn from the enumeration on success, the first
/// foreign endpoint on a classification failure, and the first empty slot
/// on an incomplete enumeration.
pub open spec fn bind_post(s: Seq<EndpointRef>, r: Result<FlirOne, FlirError>) -> bool {
    &&& (r is Ok <==> all_classified(s) && complete(s))
    &&& (r matches Ok(f) ==> {
        &&& f.wf()
        &&& s.contains(f.config.read) && s.contains(f.config.write)
        &&& s.contains(f.frame.read) && s.contains(f.frame.write)
        &&& s.contains(f.fileio.read) && s.contains(f.fileio.write)
        &&& !f.connected && !f.expect_file_data && !f.expect_frame_data
    })
    &&& (!all_classified(s) ==> exists|i: int|
        {
            &&& 0 <= i < s.len()
            &&& !classified(s[i])
            &&& (forall|j: int| 0 <= j < i ==> classified(s[j]))
            &&& r == Err::<FlirOne, FlirError>(
                FlirError::UnexpectedEndpoint(s[i].direction, s[i].number),
            )
        })
    &&& (all_classified(s) && !complete(s) ==> r == Err::<FlirOne, FlirError>(
        missing_slot_error(s),
    ))
}

/// No two distinct positions of the enumeration carry the same direction and
/// endpoint number.
pub open spec fn unique_slots(s: Seq<EndpointRef>) -> bool {
    forall|i: int, j: int|
        0 <= i < s.len() && 0 <= j < s.len() && i != j ==> !(s[i].direction == s[j].direction
            && s[i].number == s[j].number)
}

/// A valid enumeration of this device's topology: every endpoint classified,
/// all six slots present, and no slot enumerated twice.
pub open spec fn valid_topology(s: Seq<EndpointRef>) -> bool {
    all_classified(s) && complete(s) && unique_slots(s)
}

/// Two enumerations holding the same endpoints contain the same endpoints.
proof fn lemma_same_multiset_same_contains(s1: Seq<EndpointRef>, s2: Seq<EndpointRef>)
    requires
        s1.to_multiset() == s2.to_multiset(),
    ensures
        forall|x: EndpointRef| s1.contains(x) <==> s2.contains(x),
{
    assert forall|x: EndpointRef| s1.contains(x) <==> s2.contains(x) by {
        vstd::seq_lib::to_multiset_contains(s1, x);
        vstd::seq_lib::to_multiset_contains(s2, x);
    }
}

/// Binding does not depend on the order of enumeration: on a valid topology,
/// any two enumerations of the same endpoints both bind successfully, and to
/// the same session — each channel slot holds the one endpoint of the set
/// that carries its direction and number.
pub proof fn lemma_bind_ignores_enumeration_order(
    s1: Seq<EndpointRef>,
    s2: Seq<EndpointRef>,
    r1: Result<FlirOne, FlirError>,
    r2: Result<FlirOne, FlirError>,
)
    requires
        s1.to_multiset() == s2.to_multiset(),
        valid_topology(s1),
        bind_post(s1, r1),
        bind_post(s2, r2),
    ensures
        r1 is Ok,
        r2 is Ok,
        r1 == r2,
{
    lemma_same_multiset_same_contains(s1, s2);
    assert(all_classified(s2)) by {
        assert forall|i: int| 0 <= i < s2.len() implies classified(s2[i]) by {
            let x = s2[i];
            assert(s2.contains(x));
            let j = choose|j: int| 0 <= j < s1.len() && s1[j] == x;
            assert(classified(s1[j]));
        }
    }
    assert(complete(s2)) by {
        assert forall|d: Direction, n: u8| has_slot(s1, d, n) implies has_slot(s2, d, n) by {
            let i = choose|i: int| 0 <= i < s1.len() && s1[i].direction == d && s1[i].number == n;
            assert(s1.contains(s1[i]));
            let j = choose|j: int| 0 <= j < s2.len() && s2[j] == s1[i];
            assert(s2[j].direction == d && s2[j].number == n);
        }
    }
    let f1 = r1->Ok_0;
    let f2 = r2->Ok_0;
    assert forall|x: EndpointRef, y: EndpointRef|
        s1.contains(x) && s2.contains(y) && x.direction == y.direction && x.number
            == y.number implies x == y by {
        let i = choose|i: int| 0 <= i < s1.len() && s1[i] == x;
        let j = choose|j: int| 0 <= j < s1.len() && s1[j] == y;
        assert(s1[i].direction == s1[j].direction && s1[i].number == s1[j].number);
    }
    assert(f1.config == f2.config && f1.frame == f2.frame && f1.fileio == f2.fileio);
}

/// The builder slot mirrors the first `k` enumerated endpoints: it is filled
/// exactly when one of them carries this direction and number, and then it
/// holds such an endpoint.
pub open spec fn slot_filled(
    slot: Option<EndpointRef>,
    s: Seq<EndpointRef>,
    k: int,
    direction: Direction,
    number: u8,
) -> bool {
    &&& (slot is Some <==> exists|j: int|
        0 <= j < k && s[j].direction == direction && s[j].number == number)
    &&& (slot matches Some(e) ==> e.direction == direction && e.number == number
        && exists|j: int| 0 <= j < k && s[j] == e)
}

/// Staged construction of a session: one optional slot per channel and
/// direction.  Only `build` can turn this into a `FlirOne`, and only once
/// every slot is filled.
#[derive(Clone, Copy, Debug)]
pub struct FlirOneBuilder {
    pub config_read: Option<EndpointRef>,
    pub config_write: Option<EndpointRef>,
    pub frame_read: Option<EndpointRef>,
    pub frame_write: Option<EndpointRef>,
    pub fileio_read: Option<EndpointRef>,
    pub fileio_write: Option<EndpointRef>,
}

/// What `build` returns for a given builder: the first empty slot's error,
/// in the fixed check order config, frame, fileio (read before write), or
/// the disconnected session assembled from the six slots.
pub open spec fn build_spec(b: FlirOneBuilder) -> Result<FlirOne, FlirError> {
    if b.config_read is None {
        Err(FlirError::MissingEndpoint(ProtocolType::CONFIG, Direction::In))
    } else if b.config_write is None {
        Err(FlirError::MissingEndpoint(ProtocolType::CONFIG, Direction::Out))
    } else if b.frame_read is None {
        Err(FlirError::MissingEndpoint(ProtocolType::FRAME, Direction::In))
    } else if b.frame_write is None {
        Err(FlirError::MissingEndpoint(ProtocolType::FRAME, Direction::Out))
    } else if b.fileio_read is None {
        Err(FlirError::MissingEndpoint(ProtocolType::FILEIO, Direction::In))
    } else if b.fileio_write is None {
        Err(FlirError::MissingEndpoint(ProtocolType::FILEIO, Direction::Out))
    } else {
        Ok(FlirOne {
            config: Channel { read: b.config_read->0, write: b.config_write->0 },
            frame: Channel { read: b.frame_read->0, write: b.frame_write->0 },
            fileio: Channel { read: b.fileio_read->0, write: b.fileio_write->0 },
            connected: false,
            expect_file_data: false,
            expect_frame_data: false,
        })
    }
}

impl FlirOneBuilder {
    /// A builder with every slot still empty.
    pub fn new() -> (r: Self)
        ensures
            r.config_read is None,
            r.config_write is None,
            r.frame_read is None,
            r.frame_write is None,
            r.fileio_read is None,
            r.fileio_write is None,
    {
        FlirOneBuilder {
            config_read: None,
            config_write: None,
            frame_read: None,
            frame_write: None,
            fileio_read: None,
            fileio_write: None,
        }
    }

    /// Fill the CONFIG channel's device-to-host slot.
    pub fn config_read(self, endpoint: EndpointRef) -> (r: Self)
        ensures
            r == (FlirOneBuilder { config_read: Some(endpoint), ..self }),
    {
        FlirOneBuilder { config_read: Some(endpoint), ..self }
    }

    /// Fill the CONFIG channel's host-to-device slot.
    pub fn config_write(self, endpoint: EndpointRef) -> (r: Self)
        ensures
            r == (FlirOneBuilder { config_write: Some(endpoint), ..self }),
    {
        FlirOneBuilder { config_write: Some(endpoint), ..self }
    }

    /// Fill the FRAME channel's device-to-host slot.
    pub fn frame_read(self, endpoint: EndpointRef) -> (r: Self)
        ensures
            r == (FlirOneBuilder { frame_read: Some(endpoint), ..self }),
    {
        FlirOneBuilder { frame_read: Some(endpoint), ..self }
    }

    /// Fill the FRAME channel's host-to-device slot.
    pub fn frame_write(self, endpoint: EndpointRef) -> (r: Self)
        ensures
            r == (FlirOneBuilder { frame_write: Some(endpoint), ..self }),
    {
        FlirOneBuilder { frame_write: Some(endpoint), ..self }
    }

    /// Fill the FILEIO channel's device-to-host slot.
    pub fn fileio_read(self, endpoint: EndpointRef) -> (r: Self)
        ensures
            r == (FlirOneBuilder { fileio_read: Some(endpoint), ..self }),
    {
        FlirOneBuilder { fileio_read: Some(endpoint), ..self }
    }

    /// Fill the FILEIO channel's host-to-device slot.
    pub fn fileio_write(self, endpoint: EndpointRef) -> (r: Self)
        ensures
            r == (FlirOneBuilder { fileio_write: Some(endpoint), ..self }),
    {
        FlirOneBuilder { fileio_write: Some(endpoint), ..self }
    }

    /// Assemble the session, or name the first channel slot that was never
    /// filled.  A missing slot always wins over a partial session.
    pub fn build(self) -> (r: Result<FlirOne, FlirError>)
        ensures
            r == build_spec(self),
    {
        let config_read = match self.config_read {
            Some(e) => e,
            None => {
                return Err(FlirError::MissingEndpoint(ProtocolType::CONFIG, Direction::In));
            },
        };
        let config_write = match self.config_write {
            Some(e) => e,
            None => {
                return Err(FlirError::MissingEndpoint(ProtocolType::CONFIG, Direction::Out));
            },
        };
        let frame_read = match self.frame_read {
            Some(e) => e,
            None => {
                return Err(FlirError::MissingEndpoint(ProtocolType::FRAME, Direction::In));
            },
        };
        let frame_write = match self.frame_write {
            Some(e) => e,
            None => {
                return Err(FlirError::MissingEndpoint(ProtocolType::FRAME, Direction::Out));
            },
        };
        let fileio_read = match self.fileio_read {
            Some(e) => e,
            None => {
                return Err(FlirError::MissingEndpoint(ProtocolType::FILEIO, Direction::In));
            },
        };
        let fileio_write = match self.fileio_write {
            Some(e) => e,
            None => {
                return Err(FlirError::MissingEndpoint(ProtocolType::FILEIO, Direction::Out));
            },
        };
        Ok(FlirOne {
            config: Channel { read: config_read, write: config_write },
            frame: Channel { read: frame_read, write: frame_write },
            fileio: Channel { read: fileio_read, write: fileio_write },
            connected: false,
            expect_file_data: false,
            expect_frame_data: false,
        })
    }
}

/// Classify the device's full enumeration into the six channel slots and
/// assemble the session.  Order of enumeration is irrelevant; classification
/// goes by direction and endpoint number alone.  A foreign endpoint aborts
/// binding with `UnexpectedEndpoint`; an enumeration that never fills some
/// slot fails with `MissingEndpoint` for that slot.
pub fn bind_endpoints(descriptors: &Vec<EndpointRef>) -> (r: Result<FlirOne, FlirError>)
    ensures
        bind_post(descriptors@, r),
{
    let ghost s = descriptors@;
    let mut builder = FlirOneBuilder::new();
    let n = descriptors.len();
    let mut i: usize = 0;
    while i < n
        invariant
            n == s.len(),
            i <= n,
            s == descriptors@,
            forall|j: int| 0 <= j < i ==> classified(s[j]),
            slot_filled(builder.config_read, s, i as int, Direction::In, 1),
            slot_filled(builder.config_write, s, i as int, Direction::Out, 2),
            slot_filled(builder.fileio_read, s, i as int, Direction::In, 3),
            slot_filled(builder.fileio_write, s, i as int, Direction::Out, 4),
            slot_filled(builder.frame_read, s, i as int, Direction::In, 5),
            slot_filled(builder.frame_write, s, i as int, Direction::Out, 6),
        decreases n - i,
    {
        let e = descriptors[i];
        let channel = match channel_for(e.direction, e.number) {
            Some(c) => c,
            None => {
                return Err(FlirError::UnexpectedEndpoint(e.direction, e.number));
            },
        };
        match (channel, e.direction) {
            (ProtocolType::CONFIG, Direction::In) => {
                builder = builder.config_read(e);
            },
            (ProtocolType::CONFIG, Direction::Out) => {
                builder = builder.config_write(e);
            },
            (ProtocolType::FILEIO, Direction::In) => {
                builder = builder.fileio_read(e);
            },
            (ProtocolType::FILEIO, Direction::Out) => {
                builder = builder.fileio_write(e);
            },
            (ProtocolType::FRAME, Direction::In) => {
                builder = builder.frame_read(e);
            },
            (ProtocolType::FRAME, Direction::Out) => {
                builder = builder.frame_write(e);
            },
        }
        i = i + 1;
    }
    builder.build()
}

} // verus!
