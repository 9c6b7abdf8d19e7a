//! Track sends: the routes from a mixer track to send tracks, each with a
//! volume, in insertion order.
//!
//! The routes live in an `indexmap::IndexMap`, which keeps keys in
//! insertion order. Its contents are modeled as the sequence of key-value
//! entries, oldest first, with each key occurring once.

use vstd::prelude::*;

verus! {

#[verifier::external_type_specification]
#[verifier::external_body]
#[verifier::reject_recursive_types(K)]
#[verifier::reject_recursive_types(V)]
#[verifier::reject_recursive_types(S)]
pub struct ExIndexMap<K, V, S>(indexmap::IndexMap<K, V, S>);

/// The entries of a send map in insertion order, as key-value pairs.
pub uninterp spec fn send_entries(
    m: &indexmap::IndexMap<u64, i64, std::hash::RandomState>,
) -> Seq<(u64, i64)>;

/// Relies on `indexmap::IndexMap::new`: an empty map.
#[verifier::external_body]
fn new_send_map() -> (r: indexmap::IndexMap<u64, i64, std::hash::RandomState>)
    ensures
        send_entries(&r) == Seq::<(u64, i64)>::empty(),
{
    indexmap::IndexMap::new()
}

/// Relies on `indexmap::IndexMap::insert`: an existing key keeps its place
/// in the order and has its value replaced, the old value coming back; a
/// new key-value pair is appended, last in order.
#[verifier::external_body]
fn send_map_insert(
    m: &mut indexmap::IndexMap<u64, i64, std::hash::RandomState>,
    key: u64,
    value: i64,
) -> (r: Option<i64>)
    ensures
        (forall|i: int|
            0 <= i < send_entries(old(m)).len() ==> (#[trigger] send_entries(old(m))[i]).0 != key)
            ==> send_entries(final(m)) == send_entries(old(m)).push((key, value)) && r is None,
        (exists|i: int|
            0 <= i < send_entries(old(m)).len() && (#[trigger] send_entries(old(m))[i]).0 == key)
            ==> exists|i: int|
            {
                &&& 0 <= i < send_entries(old(m)).len()
                &&& (#[trigger] send_entries(old(m))[i]).0 == key
                &&& send_entries(final(m)) == send_entries(old(m)).update(i, (key, value))
                &&& r == Option::Some(send_entries(old(m))[i].1)
            },
{
    m.insert(key, value)
}

/// Relies on `indexmap::IndexMap::get`: the value stored under a key, when
/// the key is present.
#[verifier::external_body]
fn send_map_get(m: &indexmap::IndexMap<u64, i64, std::hash::RandomState>, key: u64) -> (r: Option<
    i64,
>)
    ensures
        r matches Some(v) ==> exists|i: int|
            0 <= i < send_entries(m).len() && #[trigger] send_entries(m)[i] == (key, v),
        r is None ==> forall|i: int|
            0 <= i < send_entries(m).len() ==> (#[trigger] send_entries(m)[i]).0 != key,
{
    match m.get(&key) {
        Option::Some(v) => Option::Some(*v),
        Option::None => Option::None,
    }
}

/// Relies on `indexmap::IndexMap::len`: the number of entries.
#[verifier::external_body]
fn send_map_len(m: &indexmap::IndexMap<u64, i64, std::hash::RandomState>) -> (r: usize)
    ensures
        r == send_entries(m).len(),
{
    m.len()
}

/// A send track, by its index.
#[derive(Clone, Copy, Debug, PartialEq, Eq, Structural)]
pub struct SendTrackId(pub u64);

/// The routes from a mixer track to send tracks, each with a volume, in
/// insertion order. Volumes are fixed-point gains.
pub struct TrackSends {
    sends: indexmap::IndexMap<u64, i64, std::hash::RandomState>,
}

impl TrackSends {
    /// The send routes in insertion order: a send track's index paired with
    /// its volume.
    pub closed spec fn entries(&self) -> Seq<(u64, i64)> {
        send_entries(&self.sends)
    }

    /// An empty set of send routes.
    pub fn new() -> (r: TrackSends)
        ensures
            r.entries() == Seq::<(u64, i64)>::empty(),
    {
        TrackSends { sends: new_send_map() }
    }

    /// The same sends with a route to `send_track` at `volume`: a track
    /// already routed to keeps its place in the order with the new volume;
    /// a new one is appended, last in order.
    pub fn add(self, send_track: SendTrackId, volume: i64) -> (r: TrackSends)
        ensures
            (forall|i: int|
                0 <= i < self.entries().len() ==> (#[trigger] self.entries()[i]).0
                    != send_track.0) ==> r.entries() == self.entries().push(
                (send_track.0, volume),
            ),
            (exists|i: int|
                0 <= i < self.entries().len() && (#[trigger] self.entries()[i]).0 == send_track.0)
                ==> exists|i: int|
                {
                    &&& 0 <= i < self.entries().len()
                    &&& (#[trigger] self.entries()[i]).0 == send_track.0
                    &&& r.entries() == self.entries().update(i, (send_track.0, volume))
                },
    {
        let mut sends = self.sends;
        let _previous = send_map_insert(&mut sends, send_track.0, volume);
        TrackSends { sends }
    }

    /// The volume of the route to a send track, when one exists.
    pub fn volume_of(&self, send_track: SendTrackId) -> (r: Option<i64>)
        ensures
            r matches Some(v) ==> exists|i: int|
                0 <= i < self.entries().len() && #[trigger] self.entries()[i] == (send_track.0, v),
            r is None ==> forall|i: int|
                0 <= i < self.entries().len() ==> (#[trigger] self.entries()[i]).0 != send_track.0,
    {
        let r = send_map_get(&self.sends, send_track.0);
        proof {
            if r is Some {
                let i = choose|i: int|
                    0 <= i < send_entries(&self.sends).len() && #[trigger] send_entries(
                        &self.sends,
                    )[i] == (send_track.0, r->0);
                assert(self.entries()[i] == (send_track.0, r->0));
            }
        }
        r
    }

    /// How many send routes there are.
    pub fn len(&self) -> (r: usize)
        ensures
            r == self.entries().len(),
    {
        send_map_len(&self.sends)
    }
}

} // verus!
