//! The purely in-memory record manager: the same operation shape as the
//! durable store, but no durability and no uniqueness enforcement on
//! insert. A caller that shares one manager across execution contexts
//! serializes the calls behind its own exclusive section.

use vstd::prelude::*;

use crate::error::StoreError;
use crate::model::ServiceView;

verus! {

/// One service record as the in-memory manager holds it; the same shape as
/// the durable store's record.
#[derive(Debug)]
pub struct ServiceConfig {
    /// The record id; the in-memory manager does not enforce uniqueness.
    pub id: String,
    /// The display name, kept verbatim.
    pub name: String,
    /// The price, carried as the caller's 64-bit pattern, kept verbatim.
    pub price_bits: u64,
    /// A duration in a caller-defined unit.
    pub duration: i32,
    /// Whether the record is considered in effect.
    pub is_active: bool,
}

impl View for ServiceConfig {
    type V = ServiceView;

    open spec fn view(&self) -> ServiceView {
        ServiceView {
            id: self.id@,
            name: self.name@,
            price_bits: self.price_bits,
            duration: self.duration,
            is_active: self.is_active,
        }
    }
}

/// The record values of a sequence of configurations.
pub open spec fn views_of_configs(s: Seq<ServiceConfig>) -> Seq<ServiceView> {
    s.map_values(|x: ServiceConfig| x@)
}

/// `s` with every record whose id is `id` taken out, order kept.
pub open spec fn without_id(s: Seq<ServiceView>, id: Seq<char>) -> Seq<ServiceView> {
    s.filter(|x: ServiceView| x.id != id)
}

fn clone_config(c: &ServiceConfig) -> (r: ServiceConfig)
    ensures
        r == *c,
{
    ServiceConfig {
        id: c.id.clone(),
        name: c.name.clone(),
        price_bits: c.price_bits,
        duration: c.duration,
        is_active: c.is_active,
    }
}

/// The in-memory record manager. Its mathematical value is the sequence of
/// records it holds, in insertion order; the same id may occur more than
/// once.
#[derive(Debug)]
pub struct HardwareManager {
    services: Vec<ServiceConfig>,
}

impl View for HardwareManager {
    type V = Seq<ServiceView>;

    closed spec fn view(&self) -> Seq<ServiceView> {
        views_of_configs(self.services@)
    }
}

impl HardwareManager {
    /// An empty manager.
    pub fn new() -> (r: HardwareManager)
        ensures
            r@ == Seq::<ServiceView>::empty(),
    {
        let m = HardwareManager { services: Vec::new() };
        proof {
            assert(m@ =~= Seq::<ServiceView>::empty());
        }
        m
    }

    /// Appends `service`; no uniqueness check is made, so a second record
    /// under the same id is simply kept after the first.
    pub fn add_service(&mut self, service: ServiceConfig) -> (r: Result<(), StoreError>)
        ensures
            r matches Ok(_),
            final(self)@ == old(self)@.push(service@),
    {
        let ghost pre = self.services@;
        let ghost v = service@;
        self.services.push(service);
        proof {
            assert(views_of_configs(pre.push(self.services@.last())) =~= views_of_configs(
                pre,
            ).push(v));
        }
        Ok(())
    }

    /// Returns a copy of every held record, in order.
    pub fn get_services(&self) -> (r: Result<Vec<ServiceConfig>, StoreError>)
        ensures
            r matches Ok(v) && views_of_configs(v@) == self@,
    {
        let n = self.services.len();
        let mut out: Vec<ServiceConfig> = Vec::new();
        let mut i: usize = 0;
        while i < n
            invariant
                i <= n,
                n == self.services.len(),
                out@.len() == i,
                forall|j: int| 0 <= j < i ==> out@[j] == self.services@[j],
            decreases n - i,
        {
            let c = clone_config(&self.services[i]);
            out.push(c);
            i = i + 1;
        }
        proof {
            assert(out@ =~= self.services@);
        }
        Ok(out)
    }

    /// Replaces the first held record whose id is `id` with `service`,
    /// every field taken from the new value; reports `NotFound`, changing
    /// nothing, when no held record has that id.
    pub fn update_service(&mut self, id: &str, service: ServiceConfig) -> (r: Result<
        (),
        StoreError,
    >)
        ensures
            r matches Ok(_) ==> exists|i: int|
                #![trigger old(self)@[i]]
                0 <= i < old(self)@.len() && old(self)@[i].id == id@ && (forall|j: int|
                    0 <= j < i ==> old(self)@[j].id != id@) && final(self)@ == old(self)@.update(
                    i,
                    service@,
                ),
            r matches Err(e) ==> e == StoreError::NotFound && final(self)@ == old(self)@ && (forall|
                i: int,
            | 0 <= i < old(self)@.len() ==> old(self)@[i].id != id@),
    {
        let key: String = id.to_owned();
        let n = self.services.len();
        let mut i: usize = 0;
        while i < n
            invariant
                i <= n,
                n == self.services.len(),
                self.services@ == old(self).services@,
                key@ == id@,
                forall|j: int| 0 <= j < i ==> old(self)@[j].id != id@,
            decreases n - i,
        {
            if self.services[i].id == key {
                let ghost pre = self.services@;
                let ghost w = i as int;
                self.services[i] = service;
                proof {
                    assert(views_of_configs(self.services@) =~= views_of_configs(pre).update(
                        w,
                        service@,
                    ));
                    assert(0 <= w < old(self)@.len() && old(self)@[w].id == id@ && (forall|j: int|
                        0 <= j < w ==> old(self)@[j].id != id@) && views_of_configs(self.services@)
                        == old(self)@.update(w, service@));
                }
                return Ok(());
            }
            i = i + 1;
        }
        Err(StoreError::NotFound)
    }

    /// Removes every held record whose id is `id`, keeping the order of the
    /// rest; an absent id removes nothing and is not an error.
    pub fn delete_service(&mut self, id: &str) -> (r: Result<(), StoreError>)
        ensures
            r matches Ok(_),
            final(self)@ == without_id(old(self)@, id@),
    {
        let key: String = id.to_owned();
        let n = self.services.len();
        let mut kept: Vec<ServiceConfig> = Vec::new();
        let mut i: usize = 0;
        while i < n
            invariant
                i <= n,
                n == self.services.len(),
                self.services@ == old(self).services@,
                key@ == id@,
                views_of_configs(kept@) == without_id(old(self)@.take(i as int), id@),
            decreases n - i,
        {
            let ghost pre_kept = kept@;
            let keep = if self.services[i].id == key {
                false
            } else {
                let c = clone_config(&self.services[i]);
                kept.push(c);
                true
            };
            proof {
                let vs = old(self)@;
                let pre = vs.take(i as int);
                let cur = vs.take(i as int + 1);
                assert(cur.drop_last() =~= pre);
                assert(cur.last() == vs[i as int]);
                reveal(Seq::filter);
                if keep {
                    assert(views_of_configs(kept@) =~= views_of_configs(pre_kept).push(
                        vs[i as int],
                    ));
                }
            }
            i = i + 1;
        }
        proof {
            assert(old(self)@.take(n as int) =~= old(self)@);
        }
        self.services = kept;
        Ok(())
    }
}

} // verus!
