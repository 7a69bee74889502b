//! Coordinate extraction: pulling a (longitude, latitude) pair out of the
//! heterogeneous address and place records that geocoding returns, and
//! picking the first candidate that yields one.

use vstd::prelude::*;

use crate::types::Address;
use crate::types::Place;

verus! {

/// Pair two optional values: a pair exactly when both are present.
pub open spec fn spec_join<T, U>(e: (Option<T>, Option<U>)) -> Option<(T, U)> {
    match e {
        (Some(t), Some(u)) => Some((t, u)),
        _ => None,
    }
}

/// Combine two optional values into an optional pair, both-or-nothing.
pub fn join<T, U>(e: (Option<T>, Option<U>)) -> (r: Option<(T, U)>)
    ensures
        r == spec_join(e),
{
    match e {
        (Some(t), Some(u)) => Some((t, u)),
        _ => None,
    }
}

/// The coordinate of an address candidate: present exactly when the land-lot
/// sub-record and both of its coordinate components are present.
pub open spec fn address_coord<C>(a: Address<C>) -> Option<(C, C)> {
    match a.land_lot {
        Some(l) => spec_join((l.longitude, l.latitude)),
        None => None,
    }
}

/// The coordinate of a place candidate: present exactly when both components
/// are present on the record itself.
pub open spec fn place_coord<C>(p: Place<C>) -> Option<(C, C)> {
    spec_join((p.longitude, p.latitude))
}

/// Extract the coordinate of an address candidate, both-or-nothing.
pub fn get_coord_from_address<C: Copy>(address: &Address<C>) -> (r: Option<(C, C)>)
    ensures
        r == address_coord(*address),
{
    match &address.land_lot {
        Some(land_lot) => join((land_lot.longitude, land_lot.latitude)),
        None => None,
    }
}

/// Extract the coordinate of a place candidate, both-or-nothing.
pub fn get_coord_from_place<C: Copy>(place: &Place<C>) -> (r: Option<(C, C)>)
    ensures
        r == place_coord(*place),
{
    join((place.longitude, place.latitude))
}

/// The coordinate of the first address candidate that yields one.
pub open spec fn first_address_coord<C>(addrs: Seq<Address<C>>) -> Option<(C, C)>
    decreases addrs.len(),
{
    if addrs.len() == 0 {
        None
    } else {
        match address_coord(addrs[0]) {
            Some(c) => Some(c),
            None => first_address_coord(addrs.drop_first()),
        }
    }
}

/// The coordinate of the first place candidate that yields one.
pub open spec fn first_place_coord<C>(places: Seq<Place<C>>) -> Option<(C, C)>
    decreases places.len(),
{
    if places.len() == 0 {
        None
    } else {
        match place_coord(places[0]) {
            Some(c) => Some(c),
            None => first_place_coord(places.drop_first()),
        }
    }
}

/// Walk the address candidates and return the first coordinate found.
pub fn find_address_coord<C: Copy>(addresses: &Vec<Address<C>>) -> (r: Option<(C, C)>)
    ensures
        r == first_address_coord(addresses@),
{
    proof {
        assert(addresses@.skip(0) =~= addresses@);
    }
    let mut i: usize = 0;
    while i < addresses.len()
        invariant
            0 <= i <= addresses@.len(),
            first_address_coord(addresses@) == first_address_coord(
                addresses@.skip(i as int),
            ),
        decreases addresses@.len() - i,
    {
        let c = get_coord_from_address(&addresses[i]);
        proof {
            assert(addresses@.skip(i as int)[0] == addresses@[i as int]);
            assert(addresses@.skip(i as int).drop_first() =~= addresses@.skip(i as int + 1));
        }
        if c.is_some() {
            return c;
        }
        i += 1;
    }
    proof {
        assert(addresses@.skip(addresses@.len() as int).len() == 0);
    }
    None
}

/// Walk the place candidates and return the first coordinate found.
pub fn find_place_coord<C: Copy>(places: &Vec<Place<C>>) -> (r: Option<(C, C)>)
    ensures
        r == first_place_coord(places@),
{
    proof {
        assert(places@.skip(0) =~= places@);
    }
    let mut i: usize = 0;
    while i < places.len()
        invariant
            0 <= i <= places@.len(),
            first_place_coord(places@) == first_place_coord(places@.skip(i as int)),
        decreases places@.len() - i,
    {
        let c = get_coord_from_place(&places[i]);
        proof {
            assert(places@.skip(i as int)[0] == places@[i as int]);
            assert(places@.skip(i as int).drop_first() =~= places@.skip(i as int + 1));
        }
        if c.is_some() {
            return c;
        }
        i += 1;
    }
    proof {
        assert(places@.skip(places@.len() as int).len() == 0);
    }
    None
}

} // verus!
