//! The library's laws: proofs that hold over all inputs and relate the
//! contracts of several operations — registration sequences, click dispatch,
//! and texture-cache behaviour across frames.

use vstd::prelude::*;

use crate::app::{add_entry, lemma_lookup_contains, lookup, reg_contains_id, RegistryView};
use crate::events::InputEvent;
use crate::frame::{
    cache_after, dispatch_for, event_dispatch, loads_for, press_count, press_dispatch,
};
use crate::render_components::RenderComponentView;

verus! {

/// The registry after a whole run of registration attempts, first call
/// first; each attempt takes effect exactly as `add_entry` says.
pub open spec fn add_all(
    reg: RegistryView,
    calls: Seq<(Seq<char>, RenderComponentView)>,
) -> RegistryView
    decreases calls.len(),
{
    if calls.len() == 0 {
        reg
    } else {
        add_all(add_entry(reg, calls[0].0, calls[0].1), calls.skip(1))
    }
}

/// The component of the first call that used the given identifier, if any.
pub open spec fn first_call(
    calls: Seq<(Seq<char>, RenderComponentView)>,
    id: Seq<char>,
) -> Option<RenderComponentView>
    decreases calls.len(),
{
    if calls.len() == 0 {
        None
    } else if calls[0].0 == id {
        Some(calls[0].1)
    } else {
        first_call(calls.skip(1), id)
    }
}

/// What appending one entry does to a lookup: an identifier already present
/// keeps its component, the appended identifier becomes found, and every
/// other identifier stays absent.
pub proof fn lemma_lookup_push(
    reg: RegistryView,
    entry: (Seq<char>, RenderComponentView),
    id: Seq<char>,
)
    ensures
        lookup(reg.push(entry), id) == if lookup(reg, id) is Some {
            lookup(reg, id)
        } else if entry.0 == id {
            Some(entry.1)
        } else {
            None::<RenderComponentView>
        },
    decreases reg.len(),
{
    if reg.len() == 0 {
        assert(reg.push(entry)[0] == entry);
        assert(reg.push(entry).skip(1) =~= Seq::<(Seq<char>, RenderComponentView)>::empty());
        assert(lookup(Seq::<(Seq<char>, RenderComponentView)>::empty(), id) is None);
    } else {
        assert(reg.push(entry)[0] == reg[0]);
        assert(reg.push(entry).skip(1) =~= reg.skip(1).push(entry));
        lemma_lookup_push(reg.skip(1), entry, id);
    }
}

/// Law of registration sequences: after any run of registration attempts,
/// the registry holds under each identifier exactly the component of the
/// first call that supplied that identifier while it was still free —
/// entries already present win, every later duplicate call left the registry
/// unchanged. Started from an empty registry, the registry thus contains
/// exactly the components whose identifiers were unique at their insertion.
pub proof fn lemma_registry_after_adds(
    reg: RegistryView,
    calls: Seq<(Seq<char>, RenderComponentView)>,
    id: Seq<char>,
)
    ensures
        lookup(add_all(reg, calls), id) == if lookup(reg, id) is Some {
            lookup(reg, id)
        } else {
            first_call(calls, id)
        },
    decreases calls.len(),
{
    if calls.len() > 0 {
        let entry = (calls[0].0, calls[0].1);
        let reg1 = add_entry(reg, calls[0].0, calls[0].1);
        lemma_lookup_contains(reg, calls[0].0);
        lemma_lookup_contains(reg, id);
        if !reg_contains_id(reg, calls[0].0) {
            assert(reg1 == reg.push(entry));
            lemma_lookup_push(reg, entry, id);
        }
        lemma_registry_after_adds(reg1, calls.skip(1), id);
    }
}

/// Whether a registry entry carries a click handler.
pub open spec fn has_handler(entry: (Seq<char>, RenderComponentView)) -> bool {
    entry.1.on_click is Some
}

/// The handler token of an entry that carries one.
pub open spec fn handler_of(entry: (Seq<char>, RenderComponentView)) -> u64 {
    entry.1.on_click->Some_0
}

/// Law of click dispatch within one press: one mouse press dispatches, for
/// every registered component with a click handler, exactly that component's
/// handler, exactly once, in registry order — and nothing for a component
/// without one.
pub proof fn lemma_press_dispatch_each_component_once(reg: RegistryView)
    ensures
        press_dispatch(reg) == reg.filter(
            |e: (Seq<char>, RenderComponentView)| has_handler(e),
        ).map_values(|e: (Seq<char>, RenderComponentView)| handler_of(e)),
    decreases reg.len(),
{
    reveal(Seq::filter);
    let pred = |e: (Seq<char>, RenderComponentView)| has_handler(e);
    let f = |e: (Seq<char>, RenderComponentView)| handler_of(e);
    if reg.len() > 0 {
        let front = reg.drop_last();
        lemma_press_dispatch_each_component_once(front);
        if has_handler(reg.last()) {
            assert(reg.filter(pred) == front.filter(pred).push(reg.last()));
            assert(front.filter(pred).push(reg.last()).map_values(f) =~= front.filter(
                pred,
            ).map_values(f).push(handler_of(reg.last())));
            assert(press_dispatch(reg) =~= press_dispatch(front).push(handler_of(reg.last())));
        } else {
            assert(reg.filter(pred) == front.filter(pred));
            assert(press_dispatch(reg) =~= press_dispatch(front));
        }
    } else {
        assert(reg.filter(pred).map_values(f) =~= Seq::<u64>::empty());
    }
}

/// Law of click dispatch across a run of events: every mouse press in the
/// run contributes one full dispatch round, so the number of invocations is
/// the number of presses times the number of components with a handler.
pub proof fn lemma_dispatch_per_press(events: Seq<InputEvent>, reg: RegistryView)
    ensures
        dispatch_for(events, reg).len() == press_count(events) * press_dispatch(reg).len(),
        press_count(events) >= 0,
    decreases events.len(),
{
    if events.len() > 0 {
        lemma_dispatch_per_press(events.drop_last(), reg);
        let pc = press_count(events.drop_last());
        let len = press_dispatch(reg).len() as int;
        if events.last() is MouseButtonDown {
            assert((pc + 1) * len == pc * len + len) by (nonlinear_arith);
        } else {
            assert(event_dispatch(events.last(), reg).len() == 0);
        }
    }
}

/// The texture assurance pass only appends: the cache a frame leaves behind
/// is the cache it started from followed by exactly that frame's loads.
pub proof fn lemma_cache_after_is_cache_plus_loads(cache: Seq<Seq<char>>, reg: RegistryView)
    ensures
        cache_after(cache, reg) == cache + loads_for(cache, reg),
    decreases reg.len(),
{
    if reg.len() == 0 {
        assert(cache_after(cache, reg) =~= cache + loads_for(cache, reg));
    } else {
        let path = reg[0].1.texture_path;
        if cache.contains(path) {
            lemma_cache_after_is_cache_plus_loads(cache, reg.skip(1));
        } else {
            lemma_cache_after_is_cache_plus_loads(cache.push(path), reg.skip(1));
            assert(cache.push(path) + loads_for(cache.push(path), reg.skip(1)) =~= cache + (seq![
                path,
            ] + loads_for(cache.push(path), reg.skip(1))));
        }
    }
}

/// Law of texture loading within one frame: a frame loads only paths that
/// were not yet cached, and loads no path twice, however many components
/// share it.
pub proof fn lemma_loads_fresh_and_unique(cache: Seq<Seq<char>>, reg: RegistryView)
    ensures
        loads_for(cache, reg).no_duplicates(),
        forall|p: Seq<char>| #[trigger] loads_for(cache, reg).contains(p) ==> !cache.contains(p),
    decreases reg.len(),
{
    if reg.len() > 0 {
        let path = reg[0].1.texture_path;
        if cache.contains(path) {
            lemma_loads_fresh_and_unique(cache, reg.skip(1));
        } else {
            lemma_loads_fresh_and_unique(cache.push(path), reg.skip(1));
            let rest = loads_for(cache.push(path), reg.skip(1));
            let all = seq![path] + rest;
            assert forall|p: Seq<char>| rest.contains(p) implies !cache.contains(p) && p
                != path by {
                if cache.contains(p) {
                    let w = choose|w: int| 0 <= w < cache.len() && cache[w] == p;
                    assert(cache.push(path)[w] == p);
                    assert(cache.push(path).contains(p));
                }
                if p == path {
                    assert(cache.push(path)[cache.len() as int] == path);
                    assert(cache.push(path).contains(p));
                }
            }
            assert forall|a: int, b: int| 0 <= a < b < all.len() implies all[a] != all[b] by {
                if a == 0 {
                    assert(rest[b - 1] == all[b]);
                    assert(rest.contains(all[b]));
                } else {
                    assert(all[a] == rest[a - 1] && all[b] == rest[b - 1]);
                }
            }
            assert forall|p: Seq<char>| #[trigger] all.contains(p) implies !cache.contains(
                p,
            ) by {
                let w = choose|w: int| 0 <= w < all.len() && all[w] == p;
                if w > 0 {
                    assert(rest[w - 1] == p);
                    assert(rest.contains(p));
                }
            }
            assert(loads_for(cache, reg) == all);
        }
    }
}

/// A path once cached stays cached through any assurance pass.
pub proof fn lemma_cache_after_preserves_contains(
    cache: Seq<Seq<char>>,
    reg: RegistryView,
    p: Seq<char>,
)
    requires
        cache.contains(p),
    ensures
        cache_after(cache, reg).contains(p),
    decreases reg.len(),
{
    if reg.len() > 0 {
        let path = reg[0].1.texture_path;
        if cache.contains(path) {
            lemma_cache_after_preserves_contains(cache, reg.skip(1), p);
        } else {
            let w = choose|w: int| 0 <= w < cache.len() && cache[w] == p;
            assert(cache.push(path)[w] == p);
            assert(cache.push(path).contains(p));
            lemma_cache_after_preserves_contains(cache.push(path), reg.skip(1), p);
        }
    }
}

/// After a frame's assurance pass, every registered component's path is
/// cached.
pub proof fn lemma_cache_after_contains_paths(cache: Seq<Seq<char>>, reg: RegistryView)
    ensures
        forall|k: int|
            0 <= k < reg.len() ==> cache_after(cache, reg).contains(
                #[trigger] reg[k].1.texture_path,
            ),
    decreases reg.len(),
{
    if reg.len() > 0 {
        let path = reg[0].1.texture_path;
        let next = if cache.contains(path) {
            cache
        } else {
            cache.push(path)
        };
        if !cache.contains(path) {
            assert(next[cache.len() as int] == path);
        }
        assert(next.contains(path));
        lemma_cache_after_preserves_contains(next, reg.skip(1), path);
        lemma_cache_after_contains_paths(next, reg.skip(1));
        assert forall|k: int|
            0 <= k < reg.len() implies cache_after(cache, reg).contains(
            #[trigger] reg[k].1.texture_path,
        ) by {
            if k > 0 {
                assert(reg.skip(1)[k - 1] == reg[k]);
            }
        }
    }
}

/// When every registered path is already cached, a frame loads nothing.
pub proof fn lemma_all_cached_no_loads(cache: Seq<Seq<char>>, reg: RegistryView)
    requires
        forall|k: int| 0 <= k < reg.len() ==> cache.contains(#[trigger] reg[k].1.texture_path),
    ensures
        loads_for(cache, reg) == Seq::<Seq<char>>::empty(),
    decreases reg.len(),
{
    if reg.len() > 0 {
        assert(cache.contains(reg[0].1.texture_path));
        assert forall|k: int|
            0 <= k < reg.skip(1).len() implies cache.contains(
            #[trigger] reg.skip(1)[k].1.texture_path,
        ) by {
            assert(reg.skip(1)[k] == reg[k + 1]);
        }
        lemma_all_cached_no_loads(cache, reg.skip(1));
    }
}

/// Law of texture loading across frames: a frame run on the cache a previous
/// frame left behind, over the same registry, loads nothing at all — each
/// path is handed to the image decoder exactly once, on its first frame.
pub proof fn lemma_second_frame_loads_nothing(cache: Seq<Seq<char>>, reg: RegistryView)
    ensures
        loads_for(cache_after(cache, reg), reg) == Seq::<Seq<char>>::empty(),
{
    lemma_cache_after_contains_paths(cache, reg);
    lemma_all_cached_no_loads(cache_after(cache, reg), reg);
}

} // verus!
