//! The host-entry record model, the lazy iterators over its two
//! null-terminated lists, and the owned and borrowed wrappers that expose a
//! uniform view of a record.

use vstd::prelude::*;

use crate::addr::{decodes_to, ip_address_from_bytes, spec_addr_len, IpAddr};
use crate::display::{display, spec_display};
use crate::family::{address_family, spec_address_family, AddressFamily};

verus! {

/// A host entry as handed back by a resolver, modelled as plain data. The
/// two lists keep the shape of the foreign null-terminated pointer arrays:
/// a slot is either a buffer (a non-null pointer) or `None` (a null entry),
/// and everything past the first `None` is unreachable by traversal.
#[derive(Clone, Debug)]
pub struct HostRecord {
    /// The primary name, as raw bytes (not guaranteed to be valid text).
    pub name: Vec<u8>,
    /// The raw address-family code.
    pub addrtype: i32,
    /// Slots of the address list: raw address buffers or null entries.
    pub addr_list: Vec<Option<Vec<u8>>>,
    /// Slots of the alias list: raw alias strings or null entries.
    pub alias_list: Vec<Option<Vec<u8>>>,
}

/// Buffer lengths agree with the family tag: under a recognized family every
/// buffer holds exactly that family's number of bytes. Under an unrecognized
/// family nothing is assumed, since such buffers are never decoded.
pub open spec fn slots_wf(family: Option<AddressFamily>, slots: Seq<Option<Vec<u8>>>) -> bool {
    forall|i: int|
        0 <= i < slots.len() ==> match (family, #[trigger] slots[i]) {
            (Some(f), Some(b)) => b@.len() == spec_addr_len(f),
            _ => true,
        }
}

impl HostRecord {
    /// The family tag this record's address-family code maps to.
    pub open spec fn spec_family(self) -> Option<AddressFamily> {
        spec_address_family(self.addrtype)
    }

    /// The invariant assumed of every record a resolver hands back.
    pub open spec fn wf(self) -> bool {
        slots_wf(self.spec_family(), self.addr_list@)
    }
}

/// Index of the first null slot, or the list's length when no slot is null:
/// the number of entries a traversal can reach.
pub open spec fn first_null(slots: Seq<Option<Vec<u8>>>) -> int
    decreases slots.len(),
{
    if slots.len() == 0 {
        0
    } else if slots[0] is None {
        0
    } else {
        1 + first_null(slots.skip(1))
    }
}

/// Traversal stops exactly at the first null slot: every slot before
/// `first_null` is non-null, and the slot at `first_null` (when there is
/// one) is null.
pub proof fn lemma_first_null(slots: Seq<Option<Vec<u8>>>)
    ensures
        0 <= first_null(slots) <= slots.len(),
        forall|i: int| 0 <= i < first_null(slots) ==> (#[trigger] slots[i]) is Some,
        first_null(slots) < slots.len() ==> slots[first_null(slots)] is None,
    decreases slots.len(),
{
    if slots.len() == 0 {
    } else if slots[0] is None {
    } else {
        lemma_first_null(slots.skip(1));
        assert forall|i: int| 0 <= i < first_null(slots) implies (#[trigger] slots[i]) is Some by {
            if i >= 1 {
                assert(slots.skip(1)[i - 1] == slots[i]);
            }
        }
        if first_null(slots) < slots.len() {
            assert(slots.skip(1)[first_null(slots) - 1] == slots[first_null(slots)]);
        }
    }
}

/// Iterator of typed IP addresses: a cursor over the address slots that
/// stops at the first null slot and decodes each buffer under the record's
/// family tag. Under an unrecognized family it yields no value for any slot,
/// though its cursor still advances past non-null slots.
#[derive(Clone, Copy, Debug)]
pub struct HostAddressResultsIter<'a> {
    family: Option<AddressFamily>,
    slots: &'a Vec<Option<Vec<u8>>>,
    pos: usize,
}

/// What a full traversal of the address list yields, for a consumer that
/// stops at the first `None`: nothing under an unrecognized family, and
/// otherwise one address per slot before the first null, of the family's
/// kind, with octets equal to the buffer's bytes in stored order.
pub open spec fn address_seq_matches(
    family: Option<AddressFamily>,
    slots: Seq<Option<Vec<u8>>>,
    addrs: Seq<IpAddr>,
) -> bool {
    match family {
        None => addrs.len() == 0,
        Some(f) => addrs.len() == first_null(slots) && forall|i: int|
            0 <= i < addrs.len() ==> (#[trigger] addrs[i]).spec_is_v4() == (f is Inet)
                && addrs[i].spec_bytes() == slots[i]->0@,
    }
}

impl<'a> HostAddressResultsIter<'a> {
    pub closed spec fn spec_family(self) -> Option<AddressFamily> {
        self.family
    }

    pub closed spec fn spec_slots(self) -> Seq<Option<Vec<u8>>> {
        self.slots@
    }

    pub closed spec fn spec_pos(self) -> int {
        self.pos as int
    }

    pub open spec fn wf(self) -> bool {
        self.spec_pos() <= self.spec_slots().len() && slots_wf(
            self.spec_family(),
            self.spec_slots(),
        )
    }

    /// Reads the slot at the cursor. A null slot (or the list's end) is
    /// terminal: no value, and the cursor stays put, so every later call
    /// returns no value as well. A non-null slot advances the cursor and
    /// decodes the buffer, which yields a value exactly when the family is
    /// recognized.
    pub fn next(&mut self) -> (r: Option<IpAddr>)
        requires
            old(self).wf(),
        ensures
            final(self).wf(),
            final(self).spec_family() == old(self).spec_family(),
            final(self).spec_slots() == old(self).spec_slots(),
            ({
                let slots = old(self).spec_slots();
                let pos = old(self).spec_pos();
                if pos < slots.len() && slots[pos] is Some {
                    final(self).spec_pos() == pos + 1 && decodes_to(
                        old(self).spec_family(),
                        slots[pos]->0@,
                        r,
                    )
                } else {
                    final(self).spec_pos() == pos && r is None
                }
            }),
    {
        let slots = self.slots;
        if self.pos < slots.len() {
            match &slots[self.pos] {
                Some(buf) => {
                    self.pos = self.pos + 1;
                    ip_address_from_bytes(self.family, buf)
                },
                None => None,
            }
        } else {
            None
        }
    }

    /// Drains the iterator as an ordinary consumer would, stopping at the
    /// first slot that yields no value, and collects the addresses.
    pub fn into_vec(self) -> (r: Vec<IpAddr>)
        requires
            self.wf(),
            self.spec_pos() == 0,
        ensures
            address_seq_matches(self.spec_family(), self.spec_slots(), r@),
    {
        let ghost slots = self.spec_slots();
        let ghost family = self.spec_family();
        proof {
            lemma_first_null(slots);
        }
        let mut it = self;
        let mut out: Vec<IpAddr> = Vec::new();
        loop
            invariant
                slots == self.spec_slots(),
                family == self.spec_family(),
                it.wf(),
                it.spec_slots() == slots,
                it.spec_family() == family,
                match family {
                    None => out@.len() == 0,
                    Some(f) => out@.len() == it.spec_pos() && it.spec_pos() <= first_null(slots)
                        && forall|i: int|
                        0 <= i < out@.len() ==> (#[trigger] out@[i]).spec_is_v4() == (f is Inet)
                            && out@[i].spec_bytes() == slots[i]->0@,
                },
            decreases slots.len() - it.spec_pos(),
        {
            proof {
                lemma_first_null(slots);
            }
            match it.next() {
                Some(a) => {
                    out.push(a);
                },
                None => {
                    return out;
                },
            }
        }
    }
}

/// Iterator of raw alias strings: a cursor over the alias slots that stops
/// at the first null slot and yields a view of each alias's bytes. No family
/// filtering applies, and the bytes are not guaranteed to be valid text.
#[derive(Clone, Copy, Debug)]
pub struct HostAliasResultsIter<'a> {
    slots: &'a Vec<Option<Vec<u8>>>,
    pos: usize,
}

/// What a full traversal of the alias list yields: one byte string per slot
/// before the first null, equal to that slot's bytes, in order.
pub open spec fn alias_seq_matches(slots: Seq<Option<Vec<u8>>>, aliases: Seq<Vec<u8>>) -> bool {
    aliases.len() == first_null(slots) && forall|i: int|
        0 <= i < aliases.len() ==> (#[trigger] aliases[i])@ == slots[i]->0@
}

impl<'a> HostAliasResultsIter<'a> {
    pub closed spec fn spec_slots(self) -> Seq<Option<Vec<u8>>> {
        self.slots@
    }

    pub closed spec fn spec_pos(self) -> int {
        self.pos as int
    }

    pub open spec fn wf(self) -> bool {
        self.spec_pos() <= self.spec_slots().len()
    }

    /// Reads the slot at the cursor. A null slot (or the list's end) is
    /// terminal: no value, and the cursor stays put. A non-null slot
    /// advances the cursor and yields the alias bytes unchanged.
    pub fn next(&mut self) -> (r: Option<&'a Vec<u8>>)
        requires
            old(self).wf(),
        ensures
            final(self).wf(),
            final(self).spec_slots() == old(self).spec_slots(),
            ({
                let slots = old(self).spec_slots();
                let pos = old(self).spec_pos();
                if pos < slots.len() && slots[pos] is Some {
                    final(self).spec_pos() == pos + 1 && (r matches Some(al) && al@ == slots[pos]->0@)
                } else {
                    final(self).spec_pos() == pos && r is None
                }
            }),
    {
        let slots = self.slots;
        if self.pos < slots.len() {
            match &slots[self.pos] {
                Some(alias) => {
                    self.pos = self.pos + 1;
                    Some(alias)
                },
                None => None,
            }
        } else {
            None
        }
    }

    /// Drains the iterator as an ordinary consumer would, stopping at the
    /// first null slot, and collects copies of the alias byte strings.
    pub fn into_vec(self) -> (r: Vec<Vec<u8>>)
        requires
            self.wf(),
            self.spec_pos() == 0,
        ensures
            alias_seq_matches(self.spec_slots(), r@),
    {
        let ghost slots = self.spec_slots();
        proof {
            lemma_first_null(slots);
        }
        let mut it = self;
        let mut out: Vec<Vec<u8>> = Vec::new();
        loop
            invariant
                slots == self.spec_slots(),
                it.wf(),
                it.spec_slots() == slots,
                out@.len() == it.spec_pos(),
                it.spec_pos() <= first_null(slots),
                forall|i: int| 0 <= i < out@.len() ==> (#[trigger] out@[i])@ == slots[i]->0@,
            decreases slots.len() - it.spec_pos(),
        {
            proof {
                lemma_first_null(slots);
            }
            match it.next() {
                Some(alias) => {
                    out.push(alias.clone());
                },
                None => {
                    return out;
                },
            }
        }
    }
}

fn hostname<'a>(hostent: &'a HostRecord) -> (r: &'a Vec<u8>)
    ensures
        r@ == hostent.name@,
{
    &hostent.name
}

fn addresses<'a>(hostent: &'a HostRecord) -> (r: HostAddressResultsIter<'a>)
    requires
        hostent.wf(),
    ensures
        r.wf(),
        r.spec_pos() == 0,
        r.spec_family() == hostent.spec_family(),
        r.spec_slots() == hostent.addr_list@,
{
    let addrtype = hostent.addrtype;
    HostAddressResultsIter { family: address_family(addrtype), slots: &hostent.addr_list, pos: 0 }
}

fn aliases<'a>(hostent: &'a HostRecord) -> (r: HostAliasResultsIter<'a>)
    ensures
        r.wf(),
        r.spec_pos() == 0,
        r.spec_slots() == hostent.alias_list@,
{
    HostAliasResultsIter { slots: &hostent.alias_list, pos: 0 }
}

/// The capability a host-entry wrapper offers, identical for both ownership
/// regimes: the record behind it, and fresh views of its name, addresses and
/// aliases. Purely derives views; no side effects.
pub trait HasHostent<'a>: Sized {
    /// The record this wrapper exposes.
    spec fn spec_record(self) -> HostRecord;

    fn hostent(self) -> (r: &'a HostRecord)
        ensures
            *r == self.spec_record(),
    ;

    fn hostname(self) -> (r: &'a Vec<u8>)
        ensures
            r@ == self.spec_record().name@,
    ;

    fn addresses(self) -> (r: HostAddressResultsIter<'a>)
        requires
            self.spec_record().wf(),
        ensures
            r.wf(),
            r.spec_pos() == 0,
            r.spec_family() == self.spec_record().spec_family(),
            r.spec_slots() == self.spec_record().addr_list@,
    ;

    fn aliases(self) -> (r: HostAliasResultsIter<'a>)
        ensures
            r.wf(),
            r.spec_pos() == 0,
            r.spec_slots() == self.spec_record().alias_list@,
    ;
}

/// Exclusive-ownership wrapper: holds the one record it was constructed
/// from, and the record's storage ends exactly when the wrapper does. Not
/// duplicable; a second view of the same record is a `HostentBorrowed`.
#[derive(Debug)]
pub struct HostentOwned {
    inner: HostRecord,
}

impl HostentOwned {
    pub closed spec fn spec_inner(self) -> HostRecord {
        self.inner
    }

    /// Takes ownership of a record a resolver handed off.
    pub fn new(hostent: HostRecord) -> (r: Self)
        ensures
            r.spec_inner() == hostent,
    {
        HostentOwned { inner: hostent }
    }

    /// Renders the record in the fixed entry format.
    pub fn to_display_string(&self) -> (r: String)
        requires
            self.spec_inner().wf(),
        ensures
            r@ == spec_display(self.spec_inner()),
    {
        display(&self.inner)
    }
}

impl<'a> HasHostent<'a> for &'a HostentOwned {
    open spec fn spec_record(self) -> HostRecord {
        self.spec_inner()
    }

    fn hostent(self) -> (r: &'a HostRecord) {
        &self.inner
    }

    fn hostname(self) -> (r: &'a Vec<u8>) {
        hostname(&self.inner)
    }

    fn addresses(self) -> (r: HostAddressResultsIter<'a>) {
        addresses(&self.inner)
    }

    fn aliases(self) -> (r: HostAliasResultsIter<'a>) {
        aliases(&self.inner)
    }
}

/// Borrowing wrapper: a copyable reference to a record owned elsewhere,
/// bound to that record's lifetime. Performs no release and cannot outlive
/// the scope that supplied the reference.
#[derive(Clone, Copy, Debug)]
pub struct HostentBorrowed<'a> {
    inner: &'a HostRecord,
}

impl<'a> HostentBorrowed<'a> {
    pub closed spec fn spec_inner(self) -> HostRecord {
        *self.inner
    }

    /// Wraps a transient reference; no validation, no ownership taken.
    pub fn new(hostent: &'a HostRecord) -> (r: Self)
        ensures
            r.spec_inner() == *hostent,
    {
        HostentBorrowed { inner: hostent }
    }

    /// Renders the record in the fixed entry format.
    pub fn to_display_string(&self) -> (r: String)
        requires
            self.spec_inner().wf(),
        ensures
            r@ == spec_display(self.spec_inner()),
    {
        display(self.inner)
    }
}

impl<'a> HasHostent<'a> for HostentBorrowed<'a> {
    open spec fn spec_record(self) -> HostRecord {
        self.spec_inner()
    }

    fn hostent(self) -> (r: &'a HostRecord) {
        self.inner
    }

    fn hostname(self) -> (r: &'a Vec<u8>) {
        hostname(self.inner)
    }

    fn addresses(self) -> (r: HostAddressResultsIter<'a>) {
        addresses(self.inner)
    }

    fn aliases(self) -> (r: HostAliasResultsIter<'a>) {
        aliases(self.inner)
    }
}

/// A record whose address list begins with a null slot yields no addresses:
/// whatever the family, a full traversal collects an empty sequence.
pub proof fn lemma_null_headed_list_yields_nothing(
    family: Option<AddressFamily>,
    slots: Seq<Option<Vec<u8>>>,
    addrs: Seq<IpAddr>,
)
    requires
        slots.len() > 0,
        slots[0] is None,
        address_seq_matches(family, slots, addrs),
    ensures
        addrs.len() == 0,
{
}

/// Alias traversal stops exactly at the first null slot: a null slot at `i`
/// bounds the yield by `i`, and when every earlier slot is non-null the
/// traversal yields exactly the `i` aliases before it. In particular a list
/// whose first slot is null yields the empty sequence.
pub proof fn lemma_alias_traversal_stops_at_null(
    slots: Seq<Option<Vec<u8>>>,
    aliases: Seq<Vec<u8>>,
    i: int,
)
    requires
        alias_seq_matches(slots, aliases),
        0 <= i < slots.len(),
        slots[i] is None,
    ensures
        aliases.len() <= i,
        (forall|j: int| 0 <= j < i ==> (#[trigger] slots[j]) is Some) ==> aliases.len() == i,
{
    lemma_first_null(slots);
}

/// An owned wrapper and a borrowed wrapper over equal records expose
/// identical views: the hostname bytes agree, any full address traversals of
/// the two agree element by element in family kind and octets, any full
/// alias traversals agree element by element, and both render to the same
/// text — and the borrowed wrapper has no way to release anything.
pub proof fn lemma_owned_borrowed_agree<'a>(
    o: &'a HostentOwned,
    b: HostentBorrowed<'a>,
    o_addrs: Seq<IpAddr>,
    b_addrs: Seq<IpAddr>,
    o_aliases: Seq<Vec<u8>>,
    b_aliases: Seq<Vec<u8>>,
)
    requires
        HasHostent::spec_record(o) == HasHostent::spec_record(b),
        address_seq_matches(
            HasHostent::spec_record(o).spec_family(),
            HasHostent::spec_record(o).addr_list@,
            o_addrs,
        ),
        address_seq_matches(
            HasHostent::spec_record(b).spec_family(),
            HasHostent::spec_record(b).addr_list@,
            b_addrs,
        ),
        alias_seq_matches(HasHostent::spec_record(o).alias_list@, o_aliases),
        alias_seq_matches(HasHostent::spec_record(b).alias_list@, b_aliases),
    ensures
        HasHostent::spec_record(o).name@ == HasHostent::spec_record(b).name@,
        o_addrs.len() == b_addrs.len(),
        forall|i: int|
            0 <= i < o_addrs.len() ==> (#[trigger] o_addrs[i]).spec_is_v4()
                == b_addrs[i].spec_is_v4() && o_addrs[i].spec_bytes() == b_addrs[i].spec_bytes(),
        o_aliases.len() == b_aliases.len(),
        forall|i: int| 0 <= i < o_aliases.len() ==> (#[trigger] o_aliases[i])@ == b_aliases[i]@,
        spec_display(HasHostent::spec_record(o)) == spec_display(HasHostent::spec_record(b)),
{
}

} // verus!
