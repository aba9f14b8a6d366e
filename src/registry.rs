//! The device registry: each registered device identifier owns one relay
//! channel slot, whose producer handle a single controller may claim.
use vstd::prelude::*;

verus! {

/// Why a controller could not take a device's producer handle.
#[derive(Debug, Clone, Copy, PartialEq, Eq, Structural)]
pub enum LookupError {
    /// No device is registered under the identifier.
    UnknownDevice,
    /// Another controller has already claimed the device's channel.
    AlreadyClaimed,
}

/// Why a device could not be registered.
#[derive(Debug, Clone, Copy, PartialEq, Eq, Structural)]
pub enum RegisterError {
    /// The identifier is already registered.
    DuplicateDevice,
}

/// One registry entry: a device and its producer-handle slot (`None` once a
/// controller has claimed it).
struct Slot<P> {
    device: String,
    producer: Option<P>,
}

/// Registry of devices, generic over the producer handle of a relay channel.
pub struct Registry<P> {
    slots: Vec<Slot<P>>,
}

/// The registry after `device` is registered with `producer`.
pub open spec fn registered<P>(m: Map<Seq<char>, Option<P>>, device: Seq<char>, producer: P) -> Map<
    Seq<char>,
    Option<P>,
> {
    m.insert(device, Some(producer))
}

/// Whether `device` resolves to a channel.
pub open spec fn resolvable<P>(m: Map<Seq<char>, Option<P>>, device: Seq<char>) -> bool {
    m.contains_key(device)
}

/// The outcome of a claim of `device`'s producer handle.
pub open spec fn claim_outcome<P>(m: Map<Seq<char>, Option<P>>, device: Seq<char>) -> Result<
    P,
    LookupError,
> {
    if !m.contains_key(device) {
        Err(LookupError::UnknownDevice)
    } else {
        match m[device] {
            Some(p) => Ok(p),
            None => Err(LookupError::AlreadyClaimed),
        }
    }
}

/// The registry after a claim of `device`: its slot is emptied if present.
pub open spec fn claimed<P>(m: Map<Seq<char>, Option<P>>, device: Seq<char>) -> Map<
    Seq<char>,
    Option<P>,
> {
    if m.contains_key(device) {
        m.insert(device, None)
    } else {
        m
    }
}

/// The registry after `device` is unregistered.
pub open spec fn unregistered<P>(m: Map<Seq<char>, Option<P>>, device: Seq<char>) -> Map<
    Seq<char>,
    Option<P>,
> {
    m.remove(device)
}

/// Whether `c` is a lowercase hexadecimal digit.
pub open spec fn is_lower_hex(c: char) -> bool {
    ('0' <= c && c <= '9') || ('a' <= c && c <= 'f')
}

/// Whether `s` is a version-4 UUID written in lowercase hyphenated form:
/// 36 characters, hyphens at positions 8, 13, 18 and 23, lowercase hex digits
/// elsewhere, the version digit `4` at position 14 and a variant digit among
/// `8`, `9`, `a`, `b` at position 19.
pub open spec fn is_hyphenated_v4(s: Seq<char>) -> bool {
    &&& s.len() == 36
    &&& forall|i: int|
        0 <= i < 36 ==> if i == 8 || i == 13 || i == 18 || i == 23 {
            #[trigger] s[i] == '-'
        } else {
            is_lower_hex(s[i])
        }
    &&& s[14] == '4'
    &&& s[19] == '8' || s[19] == '9' || s[19] == 'a' || s[19] == 'b'
}

/// Relies on uuid::Uuid::new_v4 and the uuid's `Display` impl: a random
/// version-4 identifier (version and variant bits set by `new_v4`) written by
/// `Display` in lowercase hyphenated form.
#[verifier::external_body]
fn fresh_device_id() -> (r: String)
    ensures
        is_hyphenated_v4(r@),
{
    uuid::Uuid::new_v4().to_string()
}

impl<P> Registry<P> {
    /// No device appears in two slots.
    pub closed spec fn wf(&self) -> bool {
        forall|i: int, j: int|
            0 <= i < self.slots@.len() && 0 <= j < self.slots@.len() && i != j
                ==> self.slots@[i].device@ != self.slots@[j].device@
    }

    spec fn has_at(&self, device: Seq<char>, i: int) -> bool {
        0 <= i < self.slots@.len() && self.slots@[i].device@ == device
    }

    /// Devices and their producer-handle slots.
    pub closed spec fn view(&self) -> Map<Seq<char>, Option<P>> {
        Map::new(
            |k: Seq<char>| exists|i: int| self.has_at(k, i),
            |k: Seq<char>| self.slots@[choose|i: int| self.has_at(k, i)].producer,
        )
    }

    proof fn lemma_view_at(&self, i: int)
        requires
            self.wf(),
            0 <= i < self.slots@.len(),
        ensures
            self@.contains_key(self.slots@[i].device@),
            self@[self.slots@[i].device@] == self.slots@[i].producer,
    {
        let k = self.slots@[i].device@;
        assert(self.has_at(k, i));
        let j = choose|j: int| self.has_at(k, j);
        assert(i == j);
    }

    /// An empty registry.
    pub fn new() -> (r: Self)
        ensures
            r.wf(),
            r@ == Map::<Seq<char>, Option<P>>::empty(),
    {
        let r = Registry { slots: Vec::new() };
        assert(r@ =~= Map::<Seq<char>, Option<P>>::empty());
        r
    }

    fn position(&self, device: &String) -> (r: Option<usize>)
        requires
            self.wf(),
        ensures
            match r {
                Some(i) => self.has_at(device@, i as int),
                None => !self@.contains_key(device@),
            },
    {
        let mut i: usize = 0;
        while i < self.slots.len()
            invariant
                i <= self.slots@.len(),
                forall|j: int| 0 <= j < i ==> self.slots@[j].device@ != device@,
            decreases self.slots@.len() - i,
        {
            if self.slots[i].device == *device {
                return Some(i);
            }
            i = i + 1;
        }
        None
    }

    /// Whether `device` is registered.
    pub fn lookup(&self, device: &String) -> (r: bool)
        requires
            self.wf(),
        ensures
            r == resolvable(self@, device@),
    {
        self.position(device).is_some()
    }

    /// Registers `device` with a fresh channel's producer handle.
    pub fn register_with(&mut self, device: String, producer: P) -> (r: Result<(), RegisterError>)
        requires
            old(self).wf(),
        ensures
            final(self).wf(),
            r is Ok <==> !old(self)@.contains_key(device@),
            r is Ok ==> final(self)@ == registered(old(self)@, device@, producer),
            r is Err ==> final(self)@ == old(self)@ && r == Err::<(), RegisterError>(
                RegisterError::DuplicateDevice,
            ),
    {
        if self.position(&device).is_some() {
            return Err(RegisterError::DuplicateDevice);
        }
        let ghost old_self = *self;
        let ghost k = device@;
        self.slots.push(Slot { device, producer: Some(producer) });
        let ghost n = self.slots@.len() - 1;
        assert forall|i: int, j: int|
            0 <= i < self.slots@.len() && 0 <= j < self.slots@.len() && i != j
                implies self.slots@[i].device@ != self.slots@[j].device@ by {
            if i == n {
                assert(!old_self.has_at(k, j));
            } else if j == n {
                assert(!old_self.has_at(k, i));
            }
        }
        assert forall|d: Seq<char>| #[trigger] self@.contains_key(d) <==> registered(
            old_self@,
            k,
            producer,
        ).contains_key(d) by {
            if self@.contains_key(d) && d != k {
                let i = choose|i: int| self.has_at(d, i);
                assert(old_self.has_at(d, i));
            }
            if old_self@.contains_key(d) {
                let i = choose|i: int| old_self.has_at(d, i);
                assert(self.has_at(d, i));
            }
            if d == k {
                assert(self.has_at(d, n));
            }
        }
        assert forall|d: Seq<char>| #[trigger] self@.contains_key(d) implies self@[d] == registered(
            old_self@,
            k,
            producer,
        )[d] by {
            let i = choose|i: int| self.has_at(d, i);
            self.lemma_view_at(i);
            if i < n {
                assert(old_self.has_at(d, i));
                old_self.lemma_view_at(i);
            }
        }
        assert(self@ =~= registered(old_self@, k, producer));
        Ok(())
    }

    /// Registers a fresh device under a newly generated identifier, which is
    /// returned. A generated identifier that is already taken is refused,
    /// which cannot happen while no registered identifier has its length.
    pub fn register(&mut self, producer: P) -> (r: Result<String, RegisterError>)
        requires
            old(self).wf(),
        ensures
            final(self).wf(),
            match r {
                Ok(id) => is_hyphenated_v4(id@) && !old(self)@.contains_key(id@) && final(self)@
                    == registered(old(self)@, id@, producer),
                Err(e) => e == RegisterError::DuplicateDevice && final(self)@ == old(self)@,
            },
            r is Err ==> exists|k: Seq<char>| k.len() == 36 && old(self)@.contains_key(k),
    {
        let id = fresh_device_id();
        let key = id.clone();
        match self.register_with(key, producer) {
            Ok(()) => Ok(id),
            Err(e) => Err(e),
        }
    }

    /// Takes `device`'s producer handle, leaving its slot empty: at most one
    /// caller obtains it.
    pub fn claim(&mut self, device: &String) -> (r: Result<P, LookupError>)
        requires
            old(self).wf(),
        ensures
            final(self).wf(),
            r == claim_outcome(old(self)@, device@),
            final(self)@ == claimed(old(self)@, device@),
    {
        match self.position(device) {
            None => Err(LookupError::UnknownDevice),
            Some(i) => {
                let ghost old_self = *self;
                proof {
                    old_self.lemma_view_at(i as int);
                }
                let slot = self.slots.remove(i);
                let Slot { device: name, producer } = slot;
                self.slots.insert(i, Slot { device: name, producer: None });
                assert(self.slots@ =~= old_self.slots@.update(
                    i as int,
                    Slot { device: old_self.slots@[i as int].device, producer: None },
                ));
                assert forall|d: Seq<char>| #[trigger] self@.contains_key(d) <==> old_self@.contains_key(d) by {
                    if self@.contains_key(d) {
                        let j = choose|j: int| self.has_at(d, j);
                        assert(old_self.has_at(d, j));
                    }
                    if old_self@.contains_key(d) {
                        let j = choose|j: int| old_self.has_at(d, j);
                        assert(self.has_at(d, j));
                    }
                }
                assert forall|d: Seq<char>| #[trigger] self@.contains_key(d) implies self@[d] == claimed(
                    old_self@,
                    device@,
                )[d] by {
                    let j = choose|j: int| self.has_at(d, j);
                    self.lemma_view_at(j);
                    old_self.lemma_view_at(j);
                }
                assert(self@ =~= claimed(old_self@, device@));
                match producer {
                    Some(p) => Ok(p),
                    None => Err(LookupError::AlreadyClaimed),
                }
            },
        }
    }

    /// Removes `device` and its channel slot; a device that is not registered
    /// leaves the registry unchanged.
    pub fn unregister(&mut self, device: &String)
        requires
            old(self).wf(),
        ensures
            final(self).wf(),
            final(self)@ == unregistered(old(self)@, device@),
    {
        match self.position(device) {
            None => {
                assert(self@ =~= unregistered(self@, device@));
            },
            Some(i) => {
                let ghost old_self = *self;
                let _ = self.slots.remove(i);
                let ghost s = old_self.slots@;
                assert forall|a: int| 0 <= a < self.slots@.len() implies #[trigger] self.slots@[a]
                    == s[if a < i { a } else { a + 1 }] by {}
                assert forall|d: Seq<char>| #[trigger] self@.contains_key(d) <==> unregistered(
                    old_self@,
                    device@,
                ).contains_key(d) by {
                    if self@.contains_key(d) {
                        let j = choose|j: int| self.has_at(d, j);
                        let oj = if j < i { j } else { j + 1 };
                        assert(old_self.has_at(d, oj));
                        assert(oj != i);
                    }
                    if old_self@.contains_key(d) && d != device@ {
                        let j = choose|j: int| old_self.has_at(d, j);
                        assert(j != i);
                        let nj = if j < i { j } else { j - 1 };
                        assert(self.has_at(d, nj));
                    }
                }
                assert forall|d: Seq<char>| #[trigger] self@.contains_key(d) implies self@[d]
                    == unregistered(old_self@, device@)[d] by {
                    let j = choose|j: int| self.has_at(d, j);
                    self.lemma_view_at(j);
                    let oj = if j < i { j } else { j + 1 };
                    old_self.lemma_view_at(oj);
                }
                assert(self@ =~= unregistered(old_self@, device@));
            },
        }
    }
}

/// Claiming is exclusive: once a claim of a device has been made, whatever
/// its outcome, every later claim of that device fails.
pub proof fn lemma_second_claim_fails<P>(m: Map<Seq<char>, Option<P>>, device: Seq<char>)
    ensures
        claim_outcome(claimed(m, device), device) is Err,
        claimed(claimed(m, device), device) == claimed(m, device),
{
}

/// An unregistered device no longer resolves, and no controller can claim its
/// channel.
pub proof fn lemma_unregistered_unresolvable<P>(m: Map<Seq<char>, Option<P>>, device: Seq<char>)
    ensures
        !resolvable(unregistered(m, device), device),
        claim_outcome(unregistered(m, device), device) == Err::<P, LookupError>(
            LookupError::UnknownDevice,
        ),
{
}

/// A registered device resolves, and a claim of it hands out the very
/// producer handle it was registered with.
pub proof fn lemma_register_then_claim<P>(m: Map<Seq<char>, Option<P>>, device: Seq<char>, producer: P)
    ensures
        resolvable(registered(m, device, producer), device),
        claim_outcome(registered(m, device, producer), device) == Ok::<P, LookupError>(producer),
{
}

} // verus!
