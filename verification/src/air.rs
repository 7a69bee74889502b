//! The air-quality resolver: command-driven filtering of a station's
//! pollutant readings, and the staged resolution pipeline with its
//! address-to-keyword geocoding fallback.

use vstd::prelude::*;

use crate::coord::find_address_coord;
use crate::coord::find_place_coord;
use crate::coord::first_address_coord;
use crate::coord::first_place_coord;
use crate::parser::cmd_air;
use crate::parser::cmd_pm;
use crate::text::contains_seq;
use crate::text::lower_of;
use crate::text::lowercase;
use crate::text::str_contains;
use crate::text::str_eq;
use crate::types::Address;
use crate::types::AirStatus;
use crate::types::ErrModel;
use crate::types::Place;
use crate::types::Pollutant;
use crate::types::RequestError;
use crate::types::ResolveError;
use vstd::pervasive::unreached;

verus! {

/// Which pollutant names a command keeps: `air` keeps every reading, `pm`
/// keeps names containing `PM` verbatim, and any other command keeps names
/// whose lowercased form contains the command.
pub open spec fn pollutant_selected(command: Seq<char>, name: Seq<char>) -> bool {
    if command == cmd_air() {
        true
    } else if command == cmd_pm() {
        contains_seq(name, seq!['P', 'M'])
    } else {
        contains_seq(lower_of(name), command)
    }
}

/// Decide whether a command keeps a pollutant name.
pub fn selected(command: &str, name: &str) -> (r: bool)
    ensures
        r == pollutant_selected(command@, name@),
{
    proof {
        reveal_strlit("air");
        reveal_strlit("pm");
        reveal_strlit("PM");
        assert("air"@ =~= cmd_air());
        assert("pm"@ =~= cmd_pm());
        assert("PM"@ =~= seq!['P', 'M']);
    }
    if str_eq(command, "air") {
        true
    } else if str_eq(command, "pm") {
        str_contains(name, "PM")
    } else {
        let low = lowercase(name);
        str_contains(low.as_str(), command)
    }
}

/// The readings a command keeps, in their original order.
pub open spec fn kept<P>(ps: Seq<Pollutant<P>>, command: Seq<char>) -> Seq<Pollutant<P>> {
    ps.filter(|p: Pollutant<P>| pollutant_selected(command, p.name@))
}

/// The `air` command keeps every reading: filtering under it is the
/// identity.
pub proof fn lemma_air_command_keeps_all<P>(ps: Seq<Pollutant<P>>)
    ensures
        kept(ps, cmd_air()) == ps,
    decreases ps.len(),
{
    reveal(Seq::filter);
    if ps.len() == 0 {
        assert(kept(ps, cmd_air()) =~= ps);
    } else {
        lemma_air_command_keeps_all::<P>(ps.drop_last());
        assert(kept(ps, cmd_air()) =~= ps.drop_last() + seq![ps.last()]);
        assert(ps.drop_last() + seq![ps.last()] =~= ps);
    }
}

/// Keep exactly the readings the command selects, in their original order.
pub fn filter_pollutants<P>(pollutants: Vec<Pollutant<P>>, command: &str) -> (r: Vec<
    Pollutant<P>,
>)
    ensures
        r@ == kept(pollutants@, command@),
{
    broadcast use vstd::seq_lib::group_seq_lib_default;

    let ghost orig = pollutants@;
    let mut rest = pollutants;
    let mut out: Vec<Pollutant<P>> = Vec::new();
    proof {
        reveal(Seq::filter);
        assert(orig.subrange(0, 0) =~= Seq::<Pollutant<P>>::empty());
        assert(rest@ =~= orig.subrange(0, orig.len() as int));
        assert(out@ =~= kept(orig.subrange(0, 0), command@));
    }
    while rest.len() > 0
        invariant
            rest@.len() <= orig.len(),
            rest@ == orig.subrange(orig.len() - rest@.len(), orig.len() as int),
            out@ == kept(orig.subrange(0, orig.len() - rest@.len()), command@),
        decreases rest@.len(),
    {
        let ghost done = orig.len() - rest@.len();
        let ghost out_before = out@;
        let p = rest.remove(0);
        let keep_it = selected(command, p.name.as_str());
        proof {
            reveal_with_fuel(Seq::filter, 3);
            assert(orig.subrange(done as int, orig.len() as int)[0] == orig[done as int]);
            assert(rest@ =~= orig.subrange(done as int + 1, orig.len() as int));
            let a = orig.subrange(0, done as int);
            let b = orig.subrange(done as int, done as int + 1);
            assert(orig.subrange(0, done as int + 1) =~= a + b);
            assert(b =~= seq![p]);
            assert(b.drop_last() =~= Seq::<Pollutant<P>>::empty());
            if pollutant_selected(command@, p.name@) {
                assert(kept(b, command@) =~= seq![p]);
            } else {
                assert(kept(b, command@) =~= Seq::<Pollutant<P>>::empty());
            }
            assert(kept(orig.subrange(0, done as int + 1), command@) == kept(a, command@) + kept(
                b,
                command@,
            ));
        }
        if keep_it {
            out.push(p);
            proof {
                assert(out@ =~= out_before + seq![p]);
            }
        } else {
            proof {
                assert(out@ =~= out_before + Seq::<Pollutant<P>>::empty());
            }
        }
    }
    proof {
        assert(orig.subrange(0, orig.len() as int) =~= orig);
    }
    out
}

/// Filter a station's readings by the command: the station address is kept,
/// and an empty selection is the command's fault, `InvalidAirkoreaCommand`.
pub fn filter_status<P>(status: AirStatus<P>, command: &str) -> (r: Result<
    AirStatus<P>,
    RequestError,
>)
    ensures
        match r {
            Ok(st) => kept(status.pollutants@, command@).len() > 0 && st.station_address
                == status.station_address && st.pollutants@ == kept(
                status.pollutants@,
                command@,
            ),
            Err(e) => kept(status.pollutants@, command@).len() == 0 && e@
                == ErrModel::InvalidAirkoreaCommand(command@),
        },
{
    let AirStatus { station_address, pollutants } = status;
    let filtered = filter_pollutants(pollutants, command);
    if filtered.len() == 0 {
        Err(RequestError::InvalidAirkoreaCommand(command.to_owned()))
    } else {
        Ok(AirStatus { station_address, pollutants: filtered })
    }
}

/// Where an air-quality resolution stands: which collaborator call it waits
/// for next.
#[derive(Debug, Clone, Copy, PartialEq, Eq)]
pub enum AirStage<C> {
    /// Waiting for the address-geocoding candidates for the query.
    NeedAddresses,
    /// Waiting for the keyword-geocoding candidates for the query.
    NeedPlaces,
    /// Waiting for the station status at the resolved (longitude, latitude).
    NeedStation(C, C),
}

/// The outcome of the collaborator call a stage waits for.
#[derive(Debug)]
pub enum AirReply<C, P, E> {
    Addresses(Result<Vec<Address<C>>, E>),
    Places(Result<Vec<Place<C>>, E>),
    Station(Result<AirStatus<P>, E>),
}

/// What a resolution step decides: go on to another stage, finish with a
/// filtered station status, or fail.
#[derive(Debug)]
pub enum AirStep<C, P, E> {
    Continue(AirStage<C>),
    Finished(AirStatus<P>),
    Failed(ResolveError<E>),
}

/// The reply a stage expects: each stage is answered by its own call.
pub open spec fn stage_expects<C, P, E>(stage: AirStage<C>, reply: AirReply<C, P, E>) -> bool {
    match (stage, reply) {
        (AirStage::NeedAddresses, AirReply::Addresses(_)) => true,
        (AirStage::NeedPlaces, AirReply::Places(_)) => true,
        (AirStage::NeedStation(_, _), AirReply::Station(_)) => true,
        _ => false,
    }
}

/// One step of the air-quality resolution. The address stage never fails: a
/// geocoding error or an empty candidate list both fall back to the keyword
/// stage. The keyword stage fails with `AddressNotFound` only when its
/// candidates yield no coordinate; its collaborator error passes through.
/// The station stage filters the readings by the command.
pub fn air_step<C: Copy, P, E>(
    command: &str,
    query: &str,
    stage: AirStage<C>,
    reply: AirReply<C, P, E>,
) -> (r: AirStep<C, P, E>)
    requires
        stage_expects(stage, reply),
    ensures
        ({
            match (stage, reply) {
                (AirStage::NeedAddresses, AirReply::Addresses(res)) => match res {
                    Ok(addrs) => match first_address_coord(addrs@) {
                        Some(c) => r == AirStep::<C, P, E>::Continue(
                            AirStage::NeedStation(c.0, c.1),
                        ),
                        None => r == AirStep::<C, P, E>::Continue(AirStage::NeedPlaces),
                    },
                    Err(_) => r == AirStep::<C, P, E>::Continue(AirStage::NeedPlaces),
                },
                (AirStage::NeedPlaces, AirReply::Places(res)) => match res {
                    Ok(places) => match first_place_coord(places@) {
                        Some(c) => r == AirStep::<C, P, E>::Continue(
                            AirStage::NeedStation(c.0, c.1),
                        ),
                        None => (r matches AirStep::Failed(ResolveError::Request(e)) && e@
                            == ErrModel::AddressNotFound(query@)),
                    },
                    Err(e) => r == AirStep::<C, P, E>::Failed(ResolveError::Upstream(e)),
                },
                (AirStage::NeedStation(_, _), AirReply::Station(res)) => match res {
                    Ok(st) => if kept(st.pollutants@, command@).len() > 0 {
                        (r matches AirStep::Finished(out) && out.station_address
                            == st.station_address && out.pollutants@ == kept(
                            st.pollutants@,
                            command@,
                        ))
                    } else {
                        (r matches AirStep::Failed(ResolveError::Request(e)) && e@
                            == ErrModel::InvalidAirkoreaCommand(command@))
                    },
                    Err(e) => r == AirStep::<C, P, E>::Failed(ResolveError::Upstream(e)),
                },
                _ => true,
            }
        }),
{
    match reply {
        AirReply::Addresses(res) => match res {
            Ok(addrs) => match find_address_coord(&addrs) {
                Some(c) => AirStep::Continue(AirStage::NeedStation(c.0, c.1)),
                None => AirStep::Continue(AirStage::NeedPlaces),
            },
            Err(_) => AirStep::Continue(AirStage::NeedPlaces),
        },
        AirReply::Places(res) => match res {
            Ok(places) => match find_place_coord(&places) {
                Some(c) => AirStep::Continue(AirStage::NeedStation(c.0, c.1)),
                None => AirStep::Failed(
                    ResolveError::Request(RequestError::AddressNotFound(query.to_owned())),
                ),
            },
            Err(e) => AirStep::Failed(ResolveError::Upstream(e)),
        },
        AirReply::Station(res) => match res {
            Ok(st) => match filter_status(st, command) {
                Ok(filtered) => AirStep::Finished(filtered),
                Err(e) => AirStep::Failed(ResolveError::Request(e)),
            },
            Err(e) => AirStep::Failed(ResolveError::Upstream(e)),
        },
    }
}

/// The coordinate the address stage yields: none when the call failed or no
/// candidate carries one; the original error is swallowed either way.
pub open spec fn address_stage_coord<C, E>(addresses: Result<Seq<Address<C>>, E>) -> Option<
    (C, C),
> {
    match addresses {
        Ok(a) => first_address_coord(a),
        Err(_) => None,
    }
}

/// A candidate list's mathematical content.
pub open spec fn candidates_view<T, E>(r: Result<Vec<T>, E>) -> Result<Seq<T>, E> {
    match r {
        Ok(v) => Ok(v@),
        Err(e) => Err(e),
    }
}

/// How the station stage relates its reply to the final outcome.
pub open spec fn station_outcome_matches<P, E>(
    command: Seq<char>,
    station: Result<AirStatus<P>, E>,
    r: Result<AirStatus<P>, ResolveError<E>>,
) -> bool {
    match station {
        Ok(st) => if kept(st.pollutants@, command).len() > 0 {
            (r matches Ok(out) && out.station_address == st.station_address && out.pollutants@
                == kept(st.pollutants@, command))
        } else {
            (r matches Err(ResolveError::Request(e)) && e@ == ErrModel::InvalidAirkoreaCommand(
                command,
            ))
        },
        Err(e) => r == Err::<AirStatus<P>, ResolveError<E>>(ResolveError::Upstream(e)),
    }
}

/// The whole resolution, as a relation between the collaborator replies and
/// the outcome: the address stage first, the keyword stage as its fallback,
/// then the station stage.
pub open spec fn resolve_matches<C, P, E>(
    command: Seq<char>,
    query: Seq<char>,
    addresses: Result<Seq<Address<C>>, E>,
    places: Result<Seq<Place<C>>, E>,
    station: Result<AirStatus<P>, E>,
    r: Result<AirStatus<P>, ResolveError<E>>,
) -> bool {
    if address_stage_coord(addresses) is Some {
        station_outcome_matches(command, station, r)
    } else {
        match places {
            Ok(ps) => match first_place_coord(ps) {
                Some(_) => station_outcome_matches(command, station, r),
                None => (r matches Err(ResolveError::Request(e)) && e@
                    == ErrModel::AddressNotFound(query)),
            },
            Err(e) => r == Err::<AirStatus<P>, ResolveError<E>>(ResolveError::Upstream(e)),
        }
    }
}

/// Resolve an air-quality request against the given collaborator replies, by
/// driving the staged machine: addresses, the keyword fallback where they
/// yield no coordinate, then the station lookup.
pub fn resolve_air<C: Copy, P, E>(
    command: &str,
    query: &str,
    addresses: Result<Vec<Address<C>>, E>,
    places: Result<Vec<Place<C>>, E>,
    station: Result<AirStatus<P>, E>,
) -> (r: Result<AirStatus<P>, ResolveError<E>>)
    ensures
        resolve_matches(
            command@,
            query@,
            candidates_view(addresses),
            candidates_view(places),
            station,
            r,
        ),
{
    let ghost addresses_model = candidates_view(addresses);
    let step = air_step(
        command,
        query,
        AirStage::NeedAddresses,
        AirReply::<C, P, E>::Addresses(addresses),
    );
    let stage = match step {
        AirStep::Continue(s) => s,
        _ => unreached(),
    };
    let stage = match stage {
        AirStage::NeedPlaces => {
            let step = air_step(
                command,
                query,
                AirStage::NeedPlaces,
                AirReply::<C, P, E>::Places(places),
            );
            match step {
                AirStep::Continue(s) => s,
                AirStep::Failed(e) => {
                    return Err(e);
                },
                _ => unreached(),
            }
        },
        s => s,
    };
    match air_step(command, query, stage, AirReply::Station(station)) {
        AirStep::Finished(st) => Ok(st),
        AirStep::Failed(e) => Err(e),
        _ => unreached(),
    }
}

/// The geocoding fallback: when the address stage yields no coordinate, the
/// keyword stage is consulted before anything fails, and the resolution ends
/// in `AddressNotFound` exactly when that stage also answers with candidates
/// yielding no coordinate.
pub proof fn lemma_geocode_fallback<C, P, E>(
    command: Seq<char>,
    query: Seq<char>,
    addresses: Result<Seq<Address<C>>, E>,
    places: Result<Seq<Place<C>>, E>,
    station: Result<AirStatus<P>, E>,
    r: Result<AirStatus<P>, ResolveError<E>>,
)
    requires
        resolve_matches(command, query, addresses, places, station, r),
        address_stage_coord(addresses) is None,
    ensures
        (r matches Err(ResolveError::Request(e)) && e@ == ErrModel::AddressNotFound(query))
            <==> (places matches Ok(ps) && first_place_coord(ps) is None),
{
}

/// Whether two outcomes agree in variant and payload content.
pub open spec fn outcome_equivalent<P, E>(
    r1: Result<AirStatus<P>, ResolveError<E>>,
    r2: Result<AirStatus<P>, ResolveError<E>>,
) -> bool {
    match (r1, r2) {
        (Ok(a), Ok(b)) => a.station_address@ == b.station_address@ && a.pollutants@
            == b.pollutants@,
        (Err(ResolveError::Request(e1)), Err(ResolveError::Request(e2))) => e1@ == e2@,
        (Err(ResolveError::Upstream(e1)), Err(ResolveError::Upstream(e2))) => e1 == e2,
        _ => false,
    }
}

/// Resolution is repeatable: against the same request and the same
/// collaborator replies, any two resolutions agree in variant and payload —
/// no state leaks from one resolution into the next.
pub proof fn lemma_resolution_idempotent<C, P, E>(
    command: Seq<char>,
    query: Seq<char>,
    addresses: Result<Seq<Address<C>>, E>,
    places: Result<Seq<Place<C>>, E>,
    station: Result<AirStatus<P>, E>,
    r1: Result<AirStatus<P>, ResolveError<E>>,
    r2: Result<AirStatus<P>, ResolveError<E>>,
)
    requires
        resolve_matches(command, query, addresses, places, station, r1),
        resolve_matches(command, query, addresses, places, station, r2),
    ensures
        outcome_equivalent(r1, r2),
{
}

} // verus!
