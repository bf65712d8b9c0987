//! Health reporting: services register, and a check answers whether a named
//! service is serving.
use vstd::prelude::*;

verus! {

/// A service whose health is reported.
pub trait HealthStatus {
    spec fn name_spec(&self) -> Seq<char>;

    spec fn serving_spec(&self) -> bool;

    fn name(&self) -> (r: &str)
        ensures
            r@ == self.name_spec(),
    ;

    fn is_serving(&self) -> (r: bool)
        ensures
            r == self.serving_spec(),
    ;
}

/// A service known by name that is always serving.
#[derive(Clone, Debug)]
pub struct HealthRegistryService {
    pub name: String,
}

impl HealthStatus for HealthRegistryService {
    open spec fn name_spec(&self) -> Seq<char> {
        self.name@
    }

    open spec fn serving_spec(&self) -> bool {
        true
    }

    fn name(&self) -> (r: &str) {
        self.name.as_str()
    }

    fn is_serving(&self) -> (r: bool) {
        true
    }
}

/// Whether the last of `services` named `name` is serving; `None` where none
/// is named so.
pub open spec fn last_status<S: HealthStatus>(services: Seq<S>, name: Seq<char>) -> Option<bool>
    decreases services.len(),
{
    if services.len() == 0 {
        None
    } else if services.last().name_spec() == name {
        Some(services.last().serving_spec())
    } else {
        last_status(services.drop_last(), name)
    }
}

/// The registered services.
pub struct HealthRegistry<S: HealthStatus> {
    services: Vec<S>,
}

impl<S: HealthStatus> HealthRegistry<S> {
    pub closed spec fn services_view(&self) -> Seq<S> {
        self.services@
    }

    pub fn new() -> (r: Self)
        ensures
            r.services_view().len() == 0,
    {
        HealthRegistry { services: Vec::new() }
    }

    pub fn register(&mut self, service: S)
        ensures
            final(self).services_view() == old(self).services_view().push(service),
    {
        self.services.push(service);
    }

    /// Whether the service registered last under `service` is serving.
    pub fn check(&self, service: &str) -> (r: Option<bool>)
        ensures
            r == last_status(self.services_view(), service@),
    {
        let wanted: String = service.to_owned();
        let mut k: usize = self.services.len();
        assert(self.services@.subrange(0, k as int) =~= self.services@);
        while k > 0
            invariant
                k <= self.services@.len(),
                wanted@ == service@,
                last_status(self.services@, service@) == last_status(
                    self.services@.subrange(0, k as int),
                    service@,
                ),
            decreases k,
        {
            let s = &self.services[k - 1];
            let name: String = s.name().to_owned();
            assert(self.services@.subrange(0, k as int).drop_last() =~= self.services@.subrange(
                0,
                k - 1,
            ));
            if name == wanted {
                return Some(s.is_serving());
            }
            k = k - 1;
        }
        None
    }
}

} // verus!
