//! Fixed-capacity mapping from 4-byte card identifiers to track indices.
//!
//! The store is a `heapless::LinearMap`, populated once at startup and only
//! read afterwards. Its contents are modelled as a `Map` from the identifier
//! bytes to the track index.

use vstd::prelude::*;

verus! {

/// How many cards the registry can hold.
pub const REGISTRY_CAPACITY: usize = 20;

#[verifier::external_type_specification]
#[verifier::external_body]
#[verifier::reject_recursive_types(K)]
#[verifier::reject_recursive_types(V)]
pub struct ExLinearMap<K, V, const N: usize>(heapless::LinearMap<K, V, N>);

/// The key-value pairs a registry store holds, keyed by the identifier bytes.
pub uninterp spec fn entries_of(m: heapless::LinearMap<[u8; 4], u16, 20>) -> Map<Seq<u8>, u16>;

/// The empty identifier-to-track map.
pub open spec fn no_entries() -> Map<Seq<u8>, u16> {
    Map::empty()
}

/// Relies on heapless::LinearMap::new: creates an empty map.
#[verifier::external_body]
fn lm_new() -> (m: heapless::LinearMap<[u8; 4], u16, 20>)
    ensures
        entries_of(m) == no_entries(),
{
    heapless::LinearMap::new()
}

/// Relies on heapless::LinearMap::get: linear search for the key, returning
/// its value if the key is present.
#[verifier::external_body]
fn lm_get(m: &heapless::LinearMap<[u8; 4], u16, 20>, key: &[u8; 4]) -> (r: Option<u16>)
    ensures
        r == if entries_of(*m).dom().contains(key@) {
            Some(entries_of(*m)[key@])
        } else {
            None::<u16>
        },
{
    m.get(key).copied()
}

/// Relies on heapless::LinearMap::insert: replaces the value of a present
/// key and returns the old one, appends a new pair while there is room, and
/// rejects the pair unchanged once the map holds N entries.
#[verifier::external_body]
fn lm_insert(m: &mut heapless::LinearMap<[u8; 4], u16, 20>, key: [u8; 4], value: u16) -> (r: Result<Option<u16>, ([u8; 4], u16)>)
    ensures
        entries_of(*old(m)).dom().contains(key@) ==> (r matches Ok(v) && v == Some(
            entries_of(*old(m))[key@],
        ) && entries_of(*final(m)) == entries_of(*old(m)).insert(key@, value)),
        (!entries_of(*old(m)).dom().contains(key@) && entries_of(*old(m)).dom().finite()
            && entries_of(*old(m)).dom().len() < 20) ==> (r matches Ok(v) && v is None
            && entries_of(*final(m)) == entries_of(*old(m)).insert(key@, value)),
        (!entries_of(*old(m)).dom().contains(key@) && entries_of(*old(m)).dom().finite()
            && entries_of(*old(m)).dom().len() >= 20) ==> (r matches Err(p) && p == (key, value)
            && entries_of(*final(m)) == entries_of(*old(m))),
{
    m.insert(key, value)
}

/// Why a card registration is rejected at startup.
#[derive(Clone, Copy, PartialEq, Eq, Structural, Debug)]
pub enum RegistryError {
    /// The registry already holds its maximum number of entries.
    RegistryFull,
    /// The identifier is already registered.
    DuplicateIdentifier,
}

/// Startup-populated, read-only mapping from card identifier to track index.
pub struct CardRegistry {
    map: heapless::LinearMap<[u8; 4], u16, 20>,
}

impl View for CardRegistry {
    type V = Map<Seq<u8>, u16>;

    closed spec fn view(&self) -> Map<Seq<u8>, u16> {
        entries_of(self.map)
    }
}

impl CardRegistry {
    /// The registry never holds more identifiers than its capacity.
    pub open spec fn wf(&self) -> bool {
        &&& self@.dom().finite()
        &&& self@.dom().len() <= REGISTRY_CAPACITY
    }

    /// An empty registry.
    pub fn new() -> (r: CardRegistry)
        ensures
            r@ == no_entries(),
            r.wf(),
    {
        let r = CardRegistry { map: lm_new() };
        proof {
            assert(r@.dom() =~= Set::<Seq<u8>>::empty());
        }
        r
    }

    /// Insert a new identifier-to-track entry. Fails with
    /// `DuplicateIdentifier` if the identifier is already present and with
    /// `RegistryFull` if the registry is at capacity; a failed insertion
    /// leaves the entries untouched.
    pub fn register(&mut self, uid: &[u8; 4], song_id: u16) -> (r: Result<(), RegistryError>)
        requires
            old(self).wf(),
        ensures
            final(self).wf(),
            old(self)@.dom().contains(uid@) ==> (r matches Err(e) && e
                == RegistryError::DuplicateIdentifier && final(self)@ == old(self)@),
            (!old(self)@.dom().contains(uid@) && old(self)@.dom().len() < REGISTRY_CAPACITY) ==> r
                is Ok && final(self)@ == old(self)@.insert(uid@, song_id),
            (!old(self)@.dom().contains(uid@) && old(self)@.dom().len() == REGISTRY_CAPACITY)
                ==> (r matches Err(e) && e == RegistryError::RegistryFull && final(self)@ == old(
                self,
            )@),
    {
        if self.lookup(uid).is_some() {
            return Err(RegistryError::DuplicateIdentifier);
        }
        match lm_insert(&mut self.map, *uid, song_id) {
            Ok(_) => {
                proof {
                    assert(self@.dom() =~= old(self)@.dom().insert(uid@));
                }
                Ok(())
            },
            Err(_) => Err(RegistryError::RegistryFull),
        }
    }

    /// Look up the track registered for an identifier; total and read-only.
    pub fn lookup(&self, uid: &[u8; 4]) -> (r: Option<u16>)
        ensures
            r == if self@.dom().contains(uid@) {
                Some(self@[uid@])
            } else {
                None::<u16>
            },
    {
        lm_get(&self.map, uid)
    }
}

} // verus!
