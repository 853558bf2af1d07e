//! Backend discovery: capabilities, registered providers, and the choice
//! of the best one.

use vstd::prelude::*;
use crate::backend::compositor::{BackendCapabilities, DisplayServerType};
use crate::text::str_eq;

verus! {

/// Something a backend can do.
#[derive(Debug)]
pub enum Capability {
    /// Inject keyboard input.
    InjectKeyboard,
    /// Inject pointer input.
    InjectPointer,
    /// Capture the screen.
    CaptureScreen,
    /// Drive this kind of display server.
    DisplayServer(DisplayServerType),
    /// A capability named by the backend.
    Custom(String),
}

/// A capability, as plain values.
pub enum CapabilityView {
    InjectKeyboard,
    InjectPointer,
    CaptureScreen,
    DisplayServer(DisplayServerType),
    Custom(Seq<char>),
}

impl View for Capability {
    type V = CapabilityView;

    open spec fn view(&self) -> CapabilityView {
        match self {
            Capability::InjectKeyboard => CapabilityView::InjectKeyboard,
            Capability::InjectPointer => CapabilityView::InjectPointer,
            Capability::CaptureScreen => CapabilityView::CaptureScreen,
            Capability::DisplayServer(d) => CapabilityView::DisplayServer(*d),
            Capability::Custom(s) => CapabilityView::Custom(s@),
        }
    }
}

/// The views of a list of capabilities.
pub open spec fn cap_views(v: Seq<Capability>) -> Seq<CapabilityView> {
    v.map_values(|c: Capability| c@)
}

impl Capability {
    /// Whether two capabilities are the same.
    pub fn same_as(&self, other: &Capability) -> (r: bool)
        ensures
            r == (self@ == other@),
    {
        match (self, other) {
            (Capability::InjectKeyboard, Capability::InjectKeyboard) => true,
            (Capability::InjectPointer, Capability::InjectPointer) => true,
            (Capability::CaptureScreen, Capability::CaptureScreen) => true,
            (Capability::DisplayServer(a), Capability::DisplayServer(b)) => *a == *b,
            (Capability::Custom(a), Capability::Custom(b)) => str_eq(a.as_str(), b.as_str()),
            _ => false,
        }
    }

    /// A copy of this capability.
    pub fn duplicate(&self) -> (r: Capability)
        ensures
            r@ == self@,
    {
        match self {
            Capability::InjectKeyboard => Capability::InjectKeyboard,
            Capability::InjectPointer => Capability::InjectPointer,
            Capability::CaptureScreen => Capability::CaptureScreen,
            Capability::DisplayServer(d) => Capability::DisplayServer(*d),
            Capability::Custom(s) => Capability::Custom(s.clone()),
        }
    }
}

/// The capabilities a backend reports: its display server first, then
/// keyboard, pointer and capture, each when present.
pub open spec fn capability_list(c: BackendCapabilities) -> Seq<CapabilityView> {
    seq![CapabilityView::DisplayServer(c.display_server_type)] + (if c.can_inject_keyboard {
        seq![CapabilityView::InjectKeyboard]
    } else {
        Seq::empty()
    }) + (if c.can_inject_pointer {
        seq![CapabilityView::InjectPointer]
    } else {
        Seq::empty()
    }) + (if c.can_capture_screen {
        seq![CapabilityView::CaptureScreen]
    } else {
        Seq::empty()
    })
}

/// The capabilities of a backend as a list (see [`capability_list`]).
pub fn capabilities_to_list(caps: &BackendCapabilities) -> (r: Vec<Capability>)
    ensures
        cap_views(r@) == capability_list(*caps),
{
    let mut result: Vec<Capability> = Vec::new();
    result.push(Capability::DisplayServer(caps.display_server_type));
    if caps.can_inject_keyboard {
        result.push(Capability::InjectKeyboard);
    }
    if caps.can_inject_pointer {
        result.push(Capability::InjectPointer);
    }
    if caps.can_capture_screen {
        result.push(Capability::CaptureScreen);
    }
    assert(cap_views(result@) =~= capability_list(*caps));
    result
}

/// A registered backend provider: its identifier, its name and what its
/// backends can do.
#[derive(Debug)]
pub struct ProviderInfo {
    /// Identifier.
    pub id: String,
    /// Human-readable name.
    pub name: String,
    /// Capabilities.
    pub capabilities: Vec<Capability>,
}

/// A provider, as plain values.
pub struct ProviderView {
    pub id: Seq<char>,
    pub name: Seq<char>,
    pub capabilities: Seq<CapabilityView>,
}

impl View for ProviderInfo {
    type V = ProviderView;

    open spec fn view(&self) -> ProviderView {
        ProviderView { id: self.id@, name: self.name@, capabilities: cap_views(self.capabilities@) }
    }
}

/// The views of a list of providers.
pub open spec fn provider_views(v: Seq<ProviderInfo>) -> Seq<ProviderView> {
    v.map_values(|p: ProviderInfo| p@)
}

/// The positions, in order, of the providers in `ps` whose capabilities
/// include `c`.
pub open spec fn positions_with(ps: Seq<ProviderView>, c: CapabilityView) -> Seq<usize>
    decreases ps.len(),
{
    if ps.len() == 0 {
        Seq::empty()
    } else if ps.last().capabilities.contains(c) {
        positions_with(ps.drop_last(), c).push((ps.len() - 1) as usize)
    } else {
        positions_with(ps.drop_last(), c)
    }
}

/// The positions, in order, of the providers marked available.
pub open spec fn available_positions(available: Seq<bool>) -> Seq<usize>
    decreases available.len(),
{
    if available.len() == 0 {
        Seq::empty()
    } else if available.last() {
        available_positions(available.drop_last()).push((available.len() - 1) as usize)
    } else {
        available_positions(available.drop_last())
    }
}

/// The capabilities each provider identifier maps to: the last provider
/// registered under an identifier wins.
pub open spec fn capability_map(ps: Seq<ProviderView>) -> Map<Seq<char>, Seq<CapabilityView>>
    decreases ps.len(),
{
    if ps.len() == 0 {
        Map::empty()
    } else {
        capability_map(ps.drop_last()).insert(ps.last().id, ps.last().capabilities)
    }
}

/// The backend providers known, in order of preference (registration
/// order).
#[derive(Debug)]
pub struct BackendRegistry {
    providers: Vec<ProviderInfo>,
}

impl BackendRegistry {
    /// The providers, in registration order.
    pub closed spec fn providers(&self) -> Seq<ProviderView> {
        provider_views(self.providers@)
    }

    /// A registry with no providers.
    pub fn new() -> (r: BackendRegistry)
        ensures
            r.providers() == Seq::<ProviderView>::empty(),
    {
        let r = BackendRegistry { providers: Vec::new() };
        assert(provider_views(r.providers@) =~= Seq::<ProviderView>::empty());
        r
    }

    /// Adds a provider after those already registered.
    pub fn register(&mut self, provider: ProviderInfo)
        ensures
            final(self).providers() == old(self).providers().push(provider@),
    {
        self.providers.push(provider);
        assert(provider_views(self.providers@) =~= provider_views(old(self).providers@).push(
            provider@,
        ));
    }

    /// The number of providers.
    pub fn len(&self) -> (r: usize)
        ensures
            r == self.providers().len(),
    {
        self.providers.len()
    }

    /// The provider at position `i`.
    pub fn provider(&self, i: usize) -> (r: &ProviderInfo)
        requires
            i < self.providers().len(),
        ensures
            r@ == self.providers()[i as int],
    {
        &self.providers[i]
    }

    /// The positions of the providers whose capabilities include
    /// `capability`, in registration order.
    pub fn find_by_capability(&self, capability: &Capability) -> (r: Vec<usize>)
        ensures
            r@ == positions_with(self.providers(), capability@),
    {
        let ghost ps = self.providers();
        let mut out: Vec<usize> = Vec::new();
        let mut i: usize = 0;
        assert(ps.take(0) =~= Seq::<ProviderView>::empty());
        while i < self.providers.len()
            invariant
                ps == provider_views(self.providers@),
                i <= self.providers@.len(),
                out@ == positions_with(ps.take(i as int), capability@),
            decreases self.providers@.len() - i,
        {
            assert(ps.take(i + 1).drop_last() =~= ps.take(i as int));
            let caps = &self.providers[i].capabilities;
            let ghost cv = cap_views(caps@);
            assert(cv == ps[i as int].capabilities);
            let mut found = false;
            let mut k: usize = 0;
            while k < caps.len()
                invariant
                    cv == cap_views(caps@),
                    k <= caps@.len(),
                    found == exists|j: int| 0 <= j < k && cv[j] == capability@,
                decreases caps@.len() - k,
            {
                let same = caps[k].same_as(capability);
                assert(cv[k as int] == caps@[k as int]@);
                if same {
                    found = true;
                }
                assert(found == exists|j: int| 0 <= j < k + 1 && cv[j] == capability@) by {
                    if same {
                        assert(cv[k as int] == capability@);
                    }
                }
                k = k + 1;
            }
            assert(found == cv.contains(capability@));
            if found {
                out.push(i);
            }
            i = i + 1;
        }
        assert(ps.take(self.providers@.len() as int) =~= ps);
        out
    }

    /// The position of the best provider, given which providers report
    /// themselves available (`available[i]` for the `i`-th): the first
    /// available one in registration order, if any.
    pub fn find_best(&self, available: &Vec<bool>) -> (r: Option<usize>)
        requires
            available@.len() == self.providers().len(),
        ensures
            match r {
                Some(i) => i < available@.len() && available@[i as int] && forall|j: int|
                    0 <= j < i ==> !available@[j],
                None => forall|j: int| 0 <= j < available@.len() ==> !available@[j],
            },
    {
        let mut i: usize = 0;
        while i < available.len()
            invariant
                i <= available@.len(),
                forall|j: int| 0 <= j < i ==> !available@[j],
            decreases available@.len() - i,
        {
            if available[i] {
                return Some(i);
            }
            i = i + 1;
        }
        None
    }

    /// The positions of the providers that report themselves available,
    /// in registration order.
    pub fn find_available(&self, available: &Vec<bool>) -> (r: Vec<usize>)
        requires
            available@.len() == self.providers().len(),
        ensures
            r@ == available_positions(available@),
    {
        let mut out: Vec<usize> = Vec::new();
        let mut i: usize = 0;
        assert(available@.take(0) =~= Seq::<bool>::empty());
        while i < available.len()
            invariant
                i <= available@.len(),
                out@ == available_positions(available@.take(i as int)),
            decreases available@.len() - i,
        {
            assert(available@.take(i + 1).drop_last() =~= available@.take(i as int));
            if available[i] {
                out.push(i);
            }
            i = i + 1;
        }
        assert(available@.take(available@.len() as int) =~= available@);
        out
    }

    /// Each provider identifier with its capabilities, one entry per
    /// identifier, the last registration under an identifier winning.
    pub fn query_capabilities(&self) -> (r: Vec<(String, Vec<Capability>)>)
        ensures
            forall|a: int, b: int|
                0 <= a < b < r@.len() ==> (#[trigger] r@[a]).0@ != (#[trigger] r@[b]).0@,
            forall|k: int|
                0 <= k < r@.len() ==> capability_map(self.providers()).contains_key(
                    (#[trigger] r@[k]).0@,
                ) && capability_map(self.providers())[r@[k].0@] == cap_views(r@[k].1@),
            forall|id: Seq<char>|
                #[trigger] capability_map(self.providers()).contains_key(id) ==> exists|k: int|
                    0 <= k < r@.len() && (#[trigger] r@[k]).0@ == id,
    {
        let ghost ps = self.providers();
        let mut out: Vec<(String, Vec<Capability>)> = Vec::new();
        let mut i: usize = 0;
        assert(ps.take(0) =~= Seq::<ProviderView>::empty());
        while i < self.providers.len()
            invariant
                ps == provider_views(self.providers@),
                i <= self.providers@.len(),
                forall|a: int, b: int|
                    0 <= a < b < out@.len() ==> (#[trigger] out@[a]).0@ != (#[trigger] out@[b]).0@,
                forall|k: int|
                    0 <= k < out@.len() ==> capability_map(ps.take(i as int)).contains_key(
                        (#[trigger] out@[k]).0@,
                    ) && capability_map(ps.take(i as int))[out@[k].0@] == cap_views(out@[k].1@),
                forall|id: Seq<char>|
                    #[trigger] capability_map(ps.take(i as int)).contains_key(id) ==> exists|k: int|
                        0 <= k < out@.len() && (#[trigger] out@[k]).0@ == id,
            decreases self.providers@.len() - i,
        {
            let ghost before = capability_map(ps.take(i as int));
            assert(ps.take(i + 1).drop_last() =~= ps.take(i as int));
            let p = &self.providers[i];
            let mut caps: Vec<Capability> = Vec::new();
            let mut k: usize = 0;
            while k < p.capabilities.len()
                invariant
                    k <= p.capabilities@.len(),
                    cap_views(caps@) == cap_views(p.capabilities@).take(k as int),
                decreases p.capabilities@.len() - k,
            {
                let ghost c0 = caps@;
                caps.push(p.capabilities[k].duplicate());
                assert(cap_views(caps@) =~= cap_views(c0).push(p.capabilities@[k as int]@));
                assert(cap_views(p.capabilities@).take(k + 1) =~= cap_views(p.capabilities@).take(
                    k as int,
                ).push(p.capabilities@[k as int]@));
                k = k + 1;
            }
            assert(cap_views(p.capabilities@).take(p.capabilities@.len() as int) =~= cap_views(
                p.capabilities@,
            ));
            let ghost after = capability_map(ps.take(i + 1));
            assert(after == before.insert(p.id@, cap_views(p.capabilities@)));
            let mut j: usize = 0;
            let mut slot: Option<usize> = None;
            while j < out.len()
                invariant
                    j <= out@.len(),
                    match slot {
                        Some(s) => s < j && out@[s as int].0@ == p.id@,
                        None => forall|m: int| 0 <= m < j ==> (#[trigger] out@[m]).0@ != p.id@,
                    },
                decreases out@.len() - j,
            {
                if slot.is_none() && str_eq(out[j].0.as_str(), p.id.as_str()) {
                    slot = Some(j);
                }
                j = j + 1;
            }
            match slot {
                Some(s) => {
                    let ghost o0 = out@;
                    let id = out[s].0.clone();
                    out.set(s, (id, caps));
                    assert forall|a: int, b: int|
                        0 <= a < b < out@.len() implies (#[trigger] out@[a]).0@ != (
                        #[trigger] out@[b]).0@ by {
                        assert(out@[a].0@ == o0[a].0@);
                        assert(out@[b].0@ == o0[b].0@);
                    }
                    assert forall|k2: int|
                        0 <= k2 < out@.len() implies after.contains_key((#[trigger] out@[k2]).0@)
                        && after[out@[k2].0@] == cap_views(out@[k2].1@) by {
                        if k2 == s {
                        } else {
                            assert(out@[k2] == o0[k2]);
                            assert(o0[k2].0@ != o0[s as int].0@);
                        }
                    }
                    assert forall|id: Seq<char>| #[trigger] after.contains_key(id) implies exists|
                        k2: int,
                    | 0 <= k2 < out@.len() && (#[trigger] out@[k2]).0@ == id by {
                        if id == p.id@ {
                            assert(out@[s as int].0@ == id);
                        } else {
                            assert(before.contains_key(id));
                            let k2 = choose|k2: int| 0 <= k2 < o0.len() && (#[trigger] o0[k2]).0@ == id;
                            assert(out@[k2].0@ == id);
                        }
                    }
                },
                None => {
                    let ghost o0 = out@;
                    out.push((p.id.clone(), caps));
                    assert forall|a: int, b: int|
                        0 <= a < b < out@.len() implies (#[trigger] out@[a]).0@ != (
                        #[trigger] out@[b]).0@ by {
                        if b < o0.len() {
                            assert(out@[a] == o0[a]);
                            assert(out@[b] == o0[b]);
                        } else {
                            assert(out@[a] == o0[a]);
                        }
                    }
                    assert forall|k2: int|
                        0 <= k2 < out@.len() implies after.contains_key((#[trigger] out@[k2]).0@)
                        && after[out@[k2].0@] == cap_views(out@[k2].1@) by {
                        if k2 < o0.len() {
                            assert(out@[k2] == o0[k2]);
                        }
                    }
                    assert forall|id: Seq<char>| #[trigger] after.contains_key(id) implies exists|
                        k2: int,
                    | 0 <= k2 < out@.len() && (#[trigger] out@[k2]).0@ == id by {
                        if id == p.id@ {
                            assert(out@[o0.len() as int].0@ == id);
                        } else {
                            assert(before.contains_key(id));
                            let k2 = choose|k2: int| 0 <= k2 < o0.len() && (#[trigger] o0[k2]).0@ == id;
                            assert(out@[k2].0@ == id);
                        }
                    }
                },
            }
            i = i + 1;
        }
        assert(ps.take(self.providers@.len() as int) =~= ps);
        out
    }
}

impl Default for BackendRegistry {
    fn default() -> (r: BackendRegistry)
        ensures
            r.providers() == Seq::<ProviderView>::empty(),
    {
        BackendRegistry::new()
    }
}

} // verus!
