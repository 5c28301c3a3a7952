use vstd::prelude::*;

use crate::user_service::{UserService, UserServiceView};

verus! {

/// A service that the registry can hold, known by its name.
pub trait Service {
    spec fn service_name(&self) -> Seq<char>;

    fn name(&self) -> (r: String)
        ensures
            r@ == self.service_name();
}

/// The kinds of service that the registry holds.
#[derive(Clone)]
pub enum ServiceType {
    UserService(UserService),
}

/// The value of a registered service.
pub enum ServiceTypeView {
    UserService(UserServiceView),
}

impl View for ServiceType {
    type V = ServiceTypeView;

    open spec fn view(&self) -> ServiceTypeView {
        match self {
            ServiceType::UserService(s) => ServiceTypeView::UserService(s@),
        }
    }
}

/// The name under which a service is registered.
pub open spec fn name_of(s: ServiceTypeView) -> Seq<char> {
    match s {
        ServiceTypeView::UserService(v) => v.name,
    }
}

impl ServiceType {
    /// The name of the service.
    pub fn name(&self) -> (r: String)
        ensures
            r@ == name_of(self@),
    {
        match self {
            ServiceType::UserService(service) => service.name(),
        }
    }

    /// A copy of the service with the same value.
    pub fn duplicate(&self) -> (r: Self)
        ensures
            r@ == self@,
    {
        match self {
            ServiceType::UserService(service) => ServiceType::UserService(service.duplicate()),
        }
    }
}

/// The map that a list of (name, service) entries stands for; a later entry
/// for a name would win over an earlier one.
pub open spec fn entries_map(s: Seq<(Seq<char>, ServiceTypeView)>) -> Map<Seq<char>, ServiceTypeView>
    decreases s.len(),
{
    if s.len() == 0 {
        Map::empty()
    } else {
        entries_map(s.drop_last()).insert(s.last().0, s.last().1)
    }
}

pub open spec fn entry_views(s: Seq<(String, ServiceType)>) -> Seq<(Seq<char>, ServiceTypeView)> {
    s.map_values(|e: (String, ServiceType)| (e.0@, e.1@))
}

pub open spec fn distinct_names(s: Seq<(Seq<char>, ServiceTypeView)>) -> bool {
    forall|i: int, j: int| 0 <= i < j < s.len() ==> (#[trigger] s[i]).0 != (#[trigger] s[j]).0
}

proof fn lemma_entries_lookup(s: Seq<(Seq<char>, ServiceTypeView)>, k: Seq<char>)
    requires
        distinct_names(s),
    ensures
        (exists|i: int| 0 <= i < s.len() && #[trigger] s[i].0 == k) <==> entries_map(s).contains_key(k),
        forall|i: int| 0 <= i < s.len() && #[trigger] s[i].0 == k ==> entries_map(s).contains_key(k) && entries_map(s)[k]
            == s[i].1,
    decreases s.len(),
{
    if s.len() > 0 {
        let p = s.drop_last();
        let n = s.len() - 1;
        assert(distinct_names(p)) by {
            assert forall|i: int, j: int| 0 <= i < j < p.len() implies (#[trigger] p[i]).0 != (#[trigger] p[j]).0 by {
                assert(p[i] == s[i] && p[j] == s[j]);
            }
        }
        lemma_entries_lookup(p, k);
        if exists|i: int| 0 <= i < s.len() && #[trigger] s[i].0 == k {
            let i = choose|i: int| 0 <= i < s.len() && #[trigger] s[i].0 == k;
            if i < n {
                assert(p[i].0 == k);
            }
        }
        if entries_map(s).contains_key(k) {
            if s[n].0 != k {
                let i = choose|i: int| 0 <= i < p.len() && #[trigger] p[i].0 == k;
                assert(s[i].0 == k);
            }
        }
        assert forall|i: int| 0 <= i < s.len() && #[trigger] s[i].0 == k implies entries_map(s).contains_key(k)
            && entries_map(s)[k] == s[i].1 by {
            if i < n {
                assert(s[i] == p[i]);
                assert(s[n].0 != s[i].0);
            }
        }
    }
}

proof fn lemma_entry_views(s: Seq<(String, ServiceType)>)
    ensures
        entry_views(s).len() == s.len(),
        forall|i: int| 0 <= i < s.len() ==> #[trigger] entry_views(s)[i] == (s[i].0@, s[i].1@),
{
}

proof fn lemma_entries_update(s: Seq<(Seq<char>, ServiceTypeView)>, i: int, v: ServiceTypeView)
    requires
        distinct_names(s),
        0 <= i < s.len(),
    ensures
        entries_map(s.update(i, (s[i].0, v))) =~= entries_map(s).insert(s[i].0, v),
    decreases s.len(),
{
    let t = s.update(i, (s[i].0, v));
    if i == s.len() - 1 {
        assert(t.drop_last() =~= s.drop_last());
    } else {
        let p = s.drop_last();
        assert(distinct_names(p)) by {
            assert forall|a: int, b: int| 0 <= a < b < p.len() implies (#[trigger] p[a]).0 != (#[trigger] p[b]).0 by {
                assert(p[a] == s[a] && p[b] == s[b]);
            }
        }
        lemma_entries_update(p, i, v);
        assert(t.drop_last() =~= p.update(i, (p[i].0, v)));
        assert(s[i].0 != s.last().0);
    }
}

/// A name-keyed registry of services. Registering under a name that is
/// already taken replaces the service held there.
pub struct ServiceProvider {
    services: Vec<(String, ServiceType)>,
}

impl View for ServiceProvider {
    type V = Map<Seq<char>, ServiceTypeView>;

    closed spec fn view(&self) -> Map<Seq<char>, ServiceTypeView> {
        entries_map(entry_views(self.services@))
    }
}

impl ServiceProvider {
    /// No two entries share a name.
    pub closed spec fn wf(&self) -> bool {
        distinct_names(entry_views(self.services@))
    }

    /// An empty registry.
    pub fn new() -> (r: Self)
        ensures
            r.wf(),
            r@ == Map::<Seq<char>, ServiceTypeView>::empty(),
    {
        let r = ServiceProvider { services: Vec::new() };
        assert(entry_views(r.services@) =~= Seq::empty());
        r
    }

    /// Registers a service under its own name, replacing any service
    /// registered under that name before.
    pub fn add_service(&mut self, service: ServiceType)
        requires
            old(self).wf(),
        ensures
            final(self).wf(),
            final(self)@ == old(self)@.insert(name_of(service@), service@),
    {
        let key = service.name();
        let mut i: usize = 0;
        let mut found = false;
        while i < self.services.len()
            invariant
                i <= self.services@.len(),
                !found ==> forall|j: int| 0 <= j < i ==> (#[trigger] self.services@[j]).0@ != key@,
                found ==> i < self.services@.len() && self.services@[i as int].0@ == key@,
            ensures
                !found ==> i == self.services@.len(),
                !found ==> forall|j: int| 0 <= j < i ==> (#[trigger] self.services@[j]).0@ != key@,
                found ==> i < self.services@.len() && self.services@[i as int].0@ == key@,
            decreases self.services.len() - i + if found { 0int } else { 1int },
        {
            if self.services[i].0 == key {
                found = true;
                break;
            }
            i = i + 1;
        }
        let ghost before = entry_views(self.services@);
        let ghost old_services = self.services@;
        let ghost sv = service@;
        proof {
            lemma_entry_views(self.services@);
        }
        if found {
            self.services.set(i, (key, service));
            proof {
                lemma_entry_views(self.services@);
                assert(entry_views(self.services@) =~= before.update(i as int, (before[i as int].0, sv)));
                lemma_entries_update(before, i as int, sv);
            }
        } else {
            self.services.push((key, service));
            proof {
                lemma_entry_views(self.services@);
                let e = entry_views(self.services@);
                assert(e.drop_last() =~= before);
                assert forall|a: int, b: int| 0 <= a < b < e.len() implies (#[trigger] e[a]).0 != (#[trigger] e[b]).0 by {
                    if b == e.len() - 1 {
                        assert(old_services[a].0@ != key@);
                    } else {
                        assert(e[a] == before[a] && e[b] == before[b]);
                    }
                }
            }
        }
    }

    /// The service registered under `name`, as an independent copy, or `None`.
    pub fn get_service(&self, name: &str) -> (r: Option<ServiceType>)
        requires
            self.wf(),
        ensures
            r is Some <==> self@.contains_key(name@),
            r matches Some(s) ==> s@ == self@[name@],
    {
        proof {
            lemma_entry_views(self.services@);
            lemma_entries_lookup(entry_views(self.services@), name@);
        }
        let key = String::from_str(name);
        let mut i: usize = 0;
        while i < self.services.len()
            invariant
                i <= self.services@.len(),
                self.wf(),
                key@ == name@,
                forall|j: int| 0 <= j < i ==> (#[trigger] self.services@[j]).0@ != key@,
            decreases self.services.len() - i,
        {
            if self.services[i].0 == key {
                let found = self.services[i].1.duplicate();
                proof {
                    assert(self.services@[i as int].0@ == key@);
                    assert(entry_views(self.services@)[i as int].0 == name@);
                    lemma_entry_views(self.services@);
                    lemma_entries_lookup(entry_views(self.services@), name@);
                    assert(self@.contains_key(name@));
                    assert(found@ == entry_views(self.services@)[i as int].1);
                }
                return Some(found);
            }
            i = i + 1;
        }
        proof {
            let e = entry_views(self.services@);
            assert forall|j: int| 0 <= j < e.len() implies #[trigger] e[j].0 != name@ by {
                assert(self.services@[j].0@ != key@);
            }
        }
        None
    }
}

/// Registering a service and then resolving its name yields that service;
/// resolving a name that nothing was registered under yields nothing.
pub proof fn lemma_register_then_resolve(
    registry: Map<Seq<char>, ServiceTypeView>,
    service: ServiceTypeView,
    other: Seq<char>,
)
    requires
        other != name_of(service),
        !registry.contains_key(other),
    ensures
        registry.insert(name_of(service), service).contains_key(name_of(service)),
        registry.insert(name_of(service), service)[name_of(service)] == service,
        !registry.insert(name_of(service), service).contains_key(other),
{
}

} // verus!
