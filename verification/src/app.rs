//! The application shell: a registry of renderable components, a texture
//! cache, and the per-frame operation.
//!
//! The shell owns no window of its own: the surrounding program acquires the
//! windowing backend (window, canvas, event source, texture factory) and
//! drives it with the [`FramePlan`] values this module computes. Each frame,
//! the program polls its pending input events into plain [`InputEvent`]
//! values, calls [`App::draw_frame`], and then carries the plan out in order:
//! invoke the listed click handlers, clear the canvas with the plan's color,
//! load the listed texture paths, and present — or stop the loop without
//! clearing or presenting when the plan requests a quit.

use vstd::prelude::*;

use crate::color::Color;
use crate::events::{AppState, InputEvent};
use crate::frame::{cache_after, dispatch_for, loads_for, press_dispatch, FramePlan};
use crate::render_components::{RenderComponent, RenderComponentView};

verus! {

/// The mathematical value of the component registry: identifier/component
/// pairs in insertion order, identifiers unique.
pub type RegistryView = Seq<(Seq<char>, RenderComponentView)>;

/// Whether every identifier occurs at most once in the registry.
pub open spec fn ids_unique(reg: RegistryView) -> bool {
    forall|i: int, j: int| 0 <= i < j < reg.len() ==> reg[i].0 != reg[j].0
}

/// Whether the registry holds a component under the given identifier.
pub open spec fn reg_contains_id(reg: RegistryView, id: Seq<char>) -> bool {
    exists|i: int| 0 <= i < reg.len() && reg[i].0 == id
}

/// The component registered under the given identifier: the first entry with
/// that identifier, which under `ids_unique` is the only one.
pub open spec fn lookup(reg: RegistryView, id: Seq<char>) -> Option<RenderComponentView>
    decreases reg.len(),
{
    if reg.len() == 0 {
        None
    } else if reg[0].0 == id {
        Some(reg[0].1)
    } else {
        lookup(reg.skip(1), id)
    }
}

/// The registry after one registration attempt: unchanged when the
/// identifier is already taken, extended at the end otherwise.
pub open spec fn add_entry(
    reg: RegistryView,
    id: Seq<char>,
    component: RenderComponentView,
) -> RegistryView {
    if reg_contains_id(reg, id) {
        reg
    } else {
        reg.push((id, component))
    }
}

/// Why an operation of the [`App`] failed.
#[derive(Clone, Copy, Debug, PartialEq, Eq, Structural)]
pub enum AppError {
    /// `add_component` was called with an identifier already registered.
    DuplicateComponentKey,
}

impl AppError {
    /// The error's description, as the host reports it.
    pub fn message(&self) -> (r: &'static str)
        ensures
            r@ == "Duplicate render component key."@,
    {
        "Duplicate render component key."
    }
}

/// The application shell's verified state: window parameters, the clear
/// color, the component registry, and the set of texture paths already
/// loaded into the cache.
pub struct App {
    title: String,
    width: u32,
    height: u32,
    clear_color: Color,
    render_components: Vec<(String, RenderComponent)>,
    texture_cache: Vec<String>,
}

impl App {
    /// The component registry, in insertion order.
    pub closed spec fn registry(&self) -> RegistryView {
        self.render_components@.map_values(|p: (String, RenderComponent)| (p.0@, p.1@))
    }

    /// The texture paths already loaded, in load order.
    pub closed spec fn cache(&self) -> Seq<Seq<char>> {
        self.texture_cache.deep_view()
    }

    /// The color the next frame clears the surface with.
    pub closed spec fn clear_color(&self) -> Color {
        self.clear_color
    }

    /// The window title the shell was constructed with.
    pub closed spec fn title(&self) -> Seq<char> {
        self.title@
    }

    /// The window width the shell was constructed with.
    pub closed spec fn width(&self) -> u32 {
        self.width
    }

    /// The window height the shell was constructed with.
    pub closed spec fn height(&self) -> u32 {
        self.height
    }

    /// Well-formedness: identifiers unique in the registry, each texture
    /// path cached at most once.
    pub open spec fn wf(&self) -> bool {
        &&& ids_unique(self.registry())
        &&& self.cache().no_duplicates()
    }

    /// A fresh shell: empty registry, empty texture cache, opaque black as
    /// the clear color.
    pub fn new(title: &str, width: u32, height: u32) -> (app: App)
        requires
            0 < width,
            0 < height,
        ensures
            app.wf(),
            app.title() == title@,
            app.width() == width,
            app.height() == height,
            app.clear_color() == (Color { r: 0u8, g: 0u8, b: 0u8, a: 255u8 }),
            app.registry() === Seq::<(Seq<char>, RenderComponentView)>::empty(),
            app.cache() === Seq::<Seq<char>>::empty(),
    {
        let app = App {
            title: title.to_owned(),
            width,
            height,
            clear_color: Color::black(),
            render_components: Vec::new(),
            texture_cache: Vec::new(),
        };
        proof {
            assert(app.registry() =~= Seq::<(Seq<char>, RenderComponentView)>::empty());
            assert(app.cache() =~= Seq::<Seq<char>>::empty());
        }
        app
    }

    /// Set the color used to clear the surface; takes effect on the next
    /// frame. Nothing else changes.
    pub fn set_clear_color(&mut self, r: u8, g: u8, b: u8, a: u8)
        ensures
            final(self).clear_color() == (Color { r, g, b, a }),
            final(self).registry() == old(self).registry(),
            final(self).cache() == old(self).cache(),
            final(self).title() == old(self).title(),
            final(self).width() == old(self).width(),
            final(self).height() == old(self).height(),
            final(self).wf() == old(self).wf(),
    {
        self.clear_color = Color::rgba(r, g, b, a);
    }

    /// Transfer the component into the registry under the given identifier.
    /// Fails, leaving the shell byte-for-byte unchanged, exactly when the
    /// identifier is already taken.
    pub fn add_component(&mut self, unique_id: &str, render_component: RenderComponent) -> (r:
        Result<(), AppError>)
        requires
            old(self).wf(),
        ensures
            final(self).wf(),
            r is Ok <==> !reg_contains_id(old(self).registry(), unique_id@),
            final(self).registry() == add_entry(
                old(self).registry(),
                unique_id@,
                render_component@,
            ),
            r is Err ==> *final(self) == *old(self) && r == Err::<(), AppError>(
                AppError::DuplicateComponentKey,
            ),
            final(self).cache() == old(self).cache(),
            final(self).clear_color() == old(self).clear_color(),
            final(self).title() == old(self).title(),
            final(self).width() == old(self).width(),
            final(self).height() == old(self).height(),
    {
        let ghost cv = render_component@;
        let id = unique_id.to_owned();
        let n = self.render_components.len();
        let mut j: usize = 0;
        while j < n
            invariant
                *self == *old(self),
                old(self).wf(),
                n == self.render_components@.len(),
                j <= n,
                id@ == unique_id@,
                forall|t: int| 0 <= t < j ==> old(self).registry()[t].0 != unique_id@,
            decreases n - j,
        {
            let entry = &self.render_components[j];
            if entry.0 == id {
                proof {
                    assert(old(self).registry()[j as int].0 == unique_id@);
                }
                return Err(AppError::DuplicateComponentKey);
            }
            j += 1;
        }
        proof {
            assert(!reg_contains_id(old(self).registry(), unique_id@));
        }
        self.render_components.push((id, render_component));
        proof {
            assert(self.registry() =~= old(self).registry().push((unique_id@, cv)));
            assert forall|a: int, b: int|
                0 <= a < b < self.registry().len() implies self.registry()[a].0
                != self.registry()[b].0 by {
                if b < self.registry().len() - 1 {
                    assert(old(self).registry()[a].0 != old(self).registry()[b].0);
                } else {
                    assert(old(self).registry()[a].0 != unique_id@);
                }
            }
        }
        Ok(())
    }

    /// One frame: drain the pending events in arrival order, then — unless a
    /// quit event was consumed — plan the render pass and extend the texture
    /// cache with every registered component's path not yet loaded.
    ///
    /// A quit event ends the call at once with `RequestedQuit`: events queued
    /// behind it stay unconsumed, nothing is cleared, loaded or presented,
    /// and the cache is left as it was. A mouse press dispatches every
    /// registered component's click handler, whatever the press coordinates.
    /// Within the plan, dispatch precedes clearing, clearing precedes texture
    /// assurance, and texture assurance precedes presentation. Texture
    /// presence is ensured for every registered component, but no component
    /// is placed on the surface at its position — the layering hint stays
    /// advisory, a preserved incompleteness of the design.
    pub fn draw_frame(&mut self, events: &Vec<InputEvent>) -> (plan: FramePlan)
        requires
            old(self).wf(),
        ensures
            final(self).wf(),
            final(self).registry() == old(self).registry(),
            final(self).clear_color() == old(self).clear_color(),
            final(self).title() == old(self).title(),
            final(self).width() == old(self).width(),
            final(self).height() == old(self).height(),
            plan.clear_color == old(self).clear_color(),
            plan.events_consumed <= events@.len(),
            plan.state is RequestedQuit || plan.state is Continue,
            (plan.state is RequestedQuit) <==> (exists|i: int|
                0 <= i < events@.len() && events@[i] is Quit),
            plan.state is RequestedQuit ==> ({
                let qi = plan.events_consumed - 1;
                &&& 0 <= qi < events@.len()
                &&& events@[qi] is Quit
                &&& (forall|j: int| 0 <= j < qi ==> !(events@[j] is Quit))
                &&& plan.handlers@ == dispatch_for(events@.take(qi), old(self).registry())
                &&& plan.loads@.len() == 0
                &&& !plan.render
                &&& final(self).cache() == old(self).cache()
            }),
            plan.state is Continue ==> ({
                &&& plan.events_consumed == events@.len()
                &&& plan.handlers@ == dispatch_for(events@, old(self).registry())
                &&& plan.render
                &&& final(self).cache() == cache_after(old(self).cache(), old(self).registry())
                &&& plan.loads.deep_view() == loads_for(old(self).cache(), old(self).registry())
            }),
    {
        let ghost reg = old(self).registry();
        let mut handlers: Vec<u64> = Vec::new();
        let n_events = events.len();
        let mut i: usize = 0;
        while i < n_events
            invariant
                *self == *old(self),
                old(self).wf(),
                reg == old(self).registry(),
                n_events == events@.len(),
                i <= n_events,
                handlers@ == dispatch_for(events@.take(i as int), reg),
                forall|j: int| 0 <= j < i ==> !(events@[j] is Quit),
            decreases n_events - i,
        {
            let event = events[i];
            match event {
                InputEvent::Quit => {
                    proof {
                        assert(events@[i as int] is Quit);
                    }
                    return FramePlan {
                        state: AppState::RequestedQuit,
                        events_consumed: i + 1,
                        handlers,
                        loads: Vec::new(),
                        render: false,
                        clear_color: self.clear_color,
                    };
                },
                InputEvent::MouseButtonDown { .. } => {
                    let n_components = self.render_components.len();
                    let mut j: usize = 0;
                    while j < n_components
                        invariant
                            *self == *old(self),
                            reg == old(self).registry(),
                            n_components == self.render_components@.len(),
                            n_components == reg.len(),
                            j <= n_components,
                            i < events@.len(),
                            events@[i as int] is MouseButtonDown,
                            handlers@ == dispatch_for(events@.take(i as int), reg)
                                + press_dispatch(reg.take(j as int)),
                        decreases n_components - j,
                    {
                        let ghost prefix = press_dispatch(reg.take(j as int));
                        let entry = &self.render_components[j];
                        if let Some(h) = entry.1.on_click_fn() {
                            handlers.push(h);
                        }
                        proof {
                            assert(reg.take(j + 1).drop_last() =~= reg.take(j as int));
                            assert(reg.take(j + 1).last() == reg[j as int]);
                            match reg[j as int].1.on_click {
                                Some(_) => {
                                    assert(handlers@ =~= dispatch_for(
                                        events@.take(i as int),
                                        reg,
                                    ) + press_dispatch(reg.take(j + 1)));
                                },
                                None => {
                                    assert(press_dispatch(reg.take(j + 1)) =~= prefix);
                                },
                            }
                        }
                        j += 1;
                    }
                    proof {
                        assert(reg.take(reg.len() as int) =~= reg);
                        assert(events@.take(i + 1).drop_last() =~= events@.take(i as int));
                        assert(events@.take(i + 1).last() == events@[i as int]);
                        assert(handlers@ =~= dispatch_for(events@.take(i + 1), reg));
                    }
                },
                InputEvent::Other => {
                    proof {
                        assert(events@.take(i + 1).drop_last() =~= events@.take(i as int));
                        assert(events@.take(i + 1).last() == events@[i as int]);
                        assert(handlers@ =~= dispatch_for(events@.take(i + 1), reg));
                    }
                },
            }
            i += 1;
        }
        proof {
            assert(events@.take(n_events as int) =~= events@);
        }
        let ghost cache0 = old(self).cache();
        let mut loads: Vec<String> = Vec::new();
        let n_components = self.render_components.len();
        let mut k: usize = 0;
        proof {
            assert(reg.skip(0) =~= reg);
            assert(loads.deep_view() =~= Seq::<Seq<char>>::empty());
            assert(loads.deep_view() + loads_for(cache0, reg) =~= loads_for(cache0, reg));
        }
        while k < n_components
            invariant
                old(self).wf(),
                reg == old(self).registry(),
                self.registry() == reg,
                self.render_components == old(self).render_components,
                self.title == old(self).title,
                self.width == old(self).width,
                self.height == old(self).height,
                self.clear_color == old(self).clear_color,
                cache0 == old(self).cache(),
                n_components == self.render_components@.len(),
                n_components == reg.len(),
                k <= n_components,
                cache_after(self.cache(), reg.skip(k as int)) == cache_after(cache0, reg),
                loads.deep_view() + loads_for(self.cache(), reg.skip(k as int)) == loads_for(
                    cache0,
                    reg,
                ),
                self.cache().no_duplicates(),
            decreases n_components - k,
        {
            let ghost cache_pre = self.cache();
            let ghost loads_pre = loads.deep_view();
            let path = self.render_components[k].1.texture_path().clone();
            proof {
                assert(path@ == reg[k as int].1.texture_path);
                assert(reg.skip(k as int)[0] == reg[k as int]);
                assert(reg.skip(k as int).skip(1) =~= reg.skip(k + 1));
            }
            let cached = contains_string(&self.texture_cache, &path);
            if !cached {
                self.texture_cache.push(path.clone());
                loads.push(path);
                proof {
                    assert(self.cache() =~= cache_pre.push(reg[k as int].1.texture_path));
                    assert(loads.deep_view() =~= loads_pre.push(reg[k as int].1.texture_path));
                    assert(loads.deep_view() + loads_for(self.cache(), reg.skip(k + 1))
                        =~= loads_pre + (seq![reg[k as int].1.texture_path] + loads_for(
                        self.cache(),
                        reg.skip(k + 1),
                    )));
                    assert forall|a: int, b: int|
                        0 <= a < b < self.cache().len() implies self.cache()[a]
                        != self.cache()[b] by {
                        if b < self.cache().len() - 1 {
                            assert(cache_pre[a] != cache_pre[b]);
                        } else {
                            assert(!cache_pre.contains(self.cache()[b]));
                        }
                    }
                }
            }
            k += 1;
        }
        proof {
            assert(reg.skip(n_components as int) =~= Seq::<(Seq<char>, RenderComponentView)>::empty());
            assert(loads.deep_view() + loads_for(self.cache(), reg.skip(n_components as int))
                =~= loads.deep_view());
        }
        FramePlan {
            state: AppState::Continue,
            events_consumed: n_events,
            handlers,
            loads,
            render: true,
            clear_color: self.clear_color,
        }
    }

    /// The component registered under the given identifier, if any.
    pub fn get_component(&self, unique_id: &str) -> (r: Option<&RenderComponent>)
        ensures
            r is Some <==> reg_contains_id(self.registry(), unique_id@),
            r is Some ==> lookup(self.registry(), unique_id@) == Some((r->0)@),
    {
        let id = unique_id.to_owned();
        let n = self.render_components.len();
        let mut j: usize = 0;
        while j < n
            invariant
                n == self.render_components@.len(),
                j <= n,
                id@ == unique_id@,
                forall|t: int| 0 <= t < j ==> self.registry()[t].0 != unique_id@,
            decreases n - j,
        {
            let entry = &self.render_components[j];
            if entry.0 == id {
                proof {
                    assert(self.registry()[j as int].0 == unique_id@);
                    lemma_lookup_found(self.registry(), unique_id@, j as int);
                }
                return Some(&entry.1);
            }
            j += 1;
        }
        proof {
            lemma_lookup_absent(self.registry(), unique_id@);
        }
        None
    }

    /// Whether the given texture path has been loaded into the cache.
    pub fn texture_cached(&self, texture_path: &str) -> (r: bool)
        ensures
            r == self.cache().contains(texture_path@),
    {
        let path = texture_path.to_owned();
        contains_string(&self.texture_cache, &path)
    }
}

/// Whether the vector holds a string with the given characters.
fn contains_string(v: &Vec<String>, s: &String) -> (r: bool)
    ensures
        r == v.deep_view().contains(s@),
{
    let n = v.len();
    let mut idx: usize = 0;
    while idx < n
        invariant
            n == v@.len(),
            idx <= n,
            forall|j: int| 0 <= j < idx ==> v.deep_view()[j] != s@,
        decreases n - idx,
    {
        if v[idx] == *s {
            proof {
                assert(v.deep_view()[idx as int] == s@);
            }
            return true;
        }
        idx += 1;
    }
    proof {
        assert forall|j: int| 0 <= j < v.deep_view().len() implies v.deep_view()[j] != s@ by {}
    }
    false
}

/// The first entry with the given identifier, when none stands before it,
/// is what `lookup` returns.
pub proof fn lemma_lookup_found(reg: RegistryView, id: Seq<char>, k: int)
    requires
        0 <= k < reg.len(),
        reg[k].0 == id,
        forall|t: int| 0 <= t < k ==> reg[t].0 != id,
    ensures
        lookup(reg, id) == Some(reg[k].1),
    decreases k,
{
    if k == 0 {
    } else {
        lemma_lookup_found(reg.skip(1), id, k - 1);
    }
}

/// When no entry carries the identifier, `lookup` returns nothing.
pub proof fn lemma_lookup_absent(reg: RegistryView, id: Seq<char>)
    requires
        forall|t: int| 0 <= t < reg.len() ==> reg[t].0 != id,
    ensures
        lookup(reg, id) is None,
    decreases reg.len(),
{
    if reg.len() > 0 {
        lemma_lookup_absent(reg.skip(1), id);
    }
}

/// `lookup` finds an entry exactly when the registry holds the identifier.
pub proof fn lemma_lookup_contains(reg: RegistryView, id: Seq<char>)
    ensures
        lookup(reg, id) is Some <==> reg_contains_id(reg, id),
    decreases reg.len(),
{
    if reg.len() > 0 {
        lemma_lookup_contains(reg.skip(1), id);
        if reg[0].0 != id {
            assert(reg_contains_id(reg.skip(1), id) ==> reg_contains_id(reg, id)) by {
                if reg_contains_id(reg.skip(1), id) {
                    let i = choose|i: int|
                        0 <= i < reg.skip(1).len() && reg.skip(1)[i].0 == id;
                    assert(reg[i + 1].0 == id);
                }
            }
            assert(reg_contains_id(reg, id) ==> reg_contains_id(reg.skip(1), id)) by {
                if reg_contains_id(reg, id) {
                    let i = choose|i: int| 0 <= i < reg.len() && reg[i].0 == id;
                    assert(reg.skip(1)[i - 1].0 == id);
                }
            }
        }
    }
}

} // verus!
