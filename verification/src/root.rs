//! Installing a pixmap as the root window's background, and reading it back.
//!
//! The root window's background lives in global, cross-process state: the two
//! atoms `_XROOTPMAP_ID` and `ESETROOT_PMAP_ID`, each holding a pixmap
//! handle, plus the window's background-pixmap attribute. This module decides
//! what a `set` does to that state — as a plan of actions the binary then
//! performs against the server — and proves the two guarantees the tool rests
//! on: after an install both atoms name the new pixmap, and the pixmaps of
//! the previous wallpaper are released only after the new one is fully
//! installed, so a failure part-way never reverts to the old background.

use vstd::prelude::*;

use crate::error::WallError;

verus! {

/// The two root-window atoms of the wallpaper convention.
#[derive(Clone, Copy, Debug, PartialEq, Eq, Structural)]
pub enum RootAtom {
    XRootPmapId,
    EsetrootPmapId,
}

/// What the two atoms held before an install: the handles read from the root
/// window, `None` where an atom is absent.
#[derive(Clone, Copy, Debug, PartialEq, Eq, Structural)]
pub struct RootProps {
    pub xroot: Option<u64>,
    pub esetroot: Option<u64>,
}

/// One step of an install, performed against the server in plan order.
#[derive(Clone, Copy, Debug, PartialEq, Eq, Structural)]
pub enum RootAction {
    /// Set one wallpaper atom on the root window to a pixmap handle.
    SetAtom { atom: RootAtom, pixmap: u64 },
    /// Set the root window's background-pixmap attribute.
    SetBackground { pixmap: u64 },
    /// Clear the root window and flush, so the change shows at once.
    ClearAndFlush,
    /// Free a server-side pixmap this client no longer needs.
    FreePixmap { pixmap: u64 },
}

/// A model of the server state an install touches: the two atoms, the root
/// window's background attribute, and which pixmap handles still exist.
#[verifier::ext_equal]
pub struct ServerModel {
    pub xroot: Option<u64>,
    pub esetroot: Option<u64>,
    pub background: Option<u64>,
    pub live: Set<u64>,
}

/// How one action changes the modelled server state.
pub open spec fn spec_apply(s: ServerModel, a: RootAction) -> ServerModel {
    match a {
        RootAction::SetAtom { atom, pixmap } => match atom {
            RootAtom::XRootPmapId => ServerModel { xroot: Some(pixmap), ..s },
            RootAtom::EsetrootPmapId => ServerModel { esetroot: Some(pixmap), ..s },
        },
        RootAction::SetBackground { pixmap } => ServerModel { background: Some(pixmap), ..s },
        RootAction::ClearAndFlush => s,
        RootAction::FreePixmap { pixmap } => ServerModel { live: s.live.remove(pixmap), ..s },
    }
}

/// The state after performing a sequence of actions in order.
pub open spec fn spec_apply_all(s: ServerModel, plan: Seq<RootAction>) -> ServerModel
    decreases plan.len(),
{
    if plan.len() == 0 {
        s
    } else {
        spec_apply_all(spec_apply(s, plan[0]), plan.subrange(1, plan.len() as int))
    }
}

/// The handles an install releases afterwards: each prior atom handle that
/// differs from the new pixmap, without repetition.
pub open spec fn spec_free_list(prior: RootProps, new_pixmap: u64) -> Seq<RootAction> {
    let first = match prior.xroot {
        Some(h) => if h != new_pixmap {
            seq![RootAction::FreePixmap { pixmap: h }]
        } else {
            Seq::<RootAction>::empty()
        },
        None => Seq::<RootAction>::empty(),
    };
    let second = match prior.esetroot {
        Some(h) => if h != new_pixmap && prior.xroot != Some(h) {
            seq![RootAction::FreePixmap { pixmap: h }]
        } else {
            Seq::<RootAction>::empty()
        },
        None => Seq::<RootAction>::empty(),
    };
    first + second
}

/// The four steps that install a pixmap: both atoms, the background
/// attribute, then a clear and flush.
pub open spec fn spec_install_steps(new_pixmap: u64) -> Seq<RootAction> {
    seq![
        RootAction::SetAtom { atom: RootAtom::XRootPmapId, pixmap: new_pixmap },
        RootAction::SetAtom { atom: RootAtom::EsetrootPmapId, pixmap: new_pixmap },
        RootAction::SetBackground { pixmap: new_pixmap },
        RootAction::ClearAndFlush,
    ]
}

/// The whole plan of a `set`: install the new pixmap, then — and only then —
/// release what the previous wallpaper held.
pub open spec fn spec_install_plan(prior: RootProps, new_pixmap: u64) -> Seq<RootAction> {
    spec_install_steps(new_pixmap) + spec_free_list(prior, new_pixmap)
}

/// Builds the action plan that installs `new_pixmap` over the prior state.
pub fn install_plan(prior: &RootProps, new_pixmap: u64) -> (plan: Vec<RootAction>)
    ensures
        plan@ == spec_install_plan(*prior, new_pixmap),
{
    let mut plan: Vec<RootAction> = Vec::new();
    plan.push(RootAction::SetAtom { atom: RootAtom::XRootPmapId, pixmap: new_pixmap });
    plan.push(RootAction::SetAtom { atom: RootAtom::EsetrootPmapId, pixmap: new_pixmap });
    plan.push(RootAction::SetBackground { pixmap: new_pixmap });
    plan.push(RootAction::ClearAndFlush);
    if let Some(h) = prior.xroot {
        if h != new_pixmap {
            plan.push(RootAction::FreePixmap { pixmap: h });
        }
    }
    if let Some(h) = prior.esetroot {
        let repeated = match prior.xroot {
            Some(g) => g == h,
            None => false,
        };
        if h != new_pixmap && !repeated {
            plan.push(RootAction::FreePixmap { pixmap: h });
        }
    }
    proof {
        assert(plan@ =~= spec_install_plan(*prior, new_pixmap));
    }
    plan
}

/// The handle the wallpaper convention currently names: `_XROOTPMAP_ID`
/// where present, else `ESETROOT_PMAP_ID`; with neither atom present nothing
/// was installed by this convention, the `NoWallpaperSet` condition.
pub fn read_atom(props: &RootProps) -> (r: Result<u64, WallError>)
    ensures
        match props.xroot {
            Some(h) => r == Ok::<u64, WallError>(h),
            None => match props.esetroot {
                Some(h) => r == Ok::<u64, WallError>(h),
                None => r == Err::<u64, WallError>(WallError::NoWallpaperSet),
            },
        },
{
    match props.xroot {
        Some(h) => Ok(h),
        None => match props.esetroot {
            Some(h) => Ok(h),
            None => Err(WallError::NoWallpaperSet),
        },
    }
}

/// Applying a concatenation is applying the parts in turn.
proof fn lemma_apply_all_app(s: ServerModel, a: Seq<RootAction>, b: Seq<RootAction>)
    ensures
        spec_apply_all(s, a + b) == spec_apply_all(spec_apply_all(s, a), b),
    decreases a.len(),
{
    if a.len() == 0 {
        assert(a + b =~= b);
    } else {
        assert((a + b).subrange(1, (a + b).len() as int) =~= a.subrange(1, a.len() as int) + b);
        lemma_apply_all_app(spec_apply(s, a[0]), a.subrange(1, a.len() as int), b);
    }
}

/// Whether an action frees a pixmap other than `p`.
pub open spec fn spec_frees_other(a: RootAction, p: u64) -> bool {
    match a {
        RootAction::FreePixmap { pixmap } => pixmap != p,
        _ => false,
    }
}

/// A sequence of frees never touches the atoms or the background, and never
/// kills a pixmap it does not name.
proof fn lemma_frees_preserve(s: ServerModel, frees: Seq<RootAction>, p: u64)
    requires
        forall|i: int| 0 <= i < frees.len() ==> spec_frees_other(frees[i], p),
    ensures
        spec_apply_all(s, frees).xroot == s.xroot,
        spec_apply_all(s, frees).esetroot == s.esetroot,
        spec_apply_all(s, frees).background == s.background,
        spec_apply_all(s, frees).live.contains(p) == s.live.contains(p),
    decreases frees.len(),
{
    if frees.len() > 0 {
        lemma_frees_preserve(spec_apply(s, frees[0]), frees.subrange(1, frees.len() as int), p);
    }
}

/// Every action of the free list frees a pixmap other than the new one.
proof fn lemma_free_list_spares_new(prior: RootProps, new_pixmap: u64)
    ensures
        forall|i: int|
            0 <= i < spec_free_list(prior, new_pixmap).len() ==> spec_frees_other(
                spec_free_list(prior, new_pixmap)[i],
                new_pixmap,
            ),
{
}

/// After the install steps alone, both atoms and the background name the new
/// pixmap, and what was live stays live.
proof fn lemma_install_steps(s: ServerModel, new_pixmap: u64)
    ensures
        spec_apply_all(s, spec_install_steps(new_pixmap)) == (ServerModel {
            xroot: Some(new_pixmap),
            esetroot: Some(new_pixmap),
            background: Some(new_pixmap),
            live: s.live,
        }),
{
    let steps = spec_install_steps(new_pixmap);
    let s1 = spec_apply(s, steps[0]);
    let s2 = spec_apply(s1, steps[1]);
    let s3 = spec_apply(s2, steps[2]);
    let s4 = spec_apply(s3, steps[3]);
    let t1 = steps.subrange(1, 4);
    let t2 = steps.subrange(2, 4);
    let t3 = steps.subrange(3, 4);
    assert(t1[0] == steps[1] && t2[0] == steps[2] && t3[0] == steps[3]);
    assert(t1.subrange(1, 3) =~= t2);
    assert(t2.subrange(1, 2) =~= t3);
    assert(t3.subrange(1, 1) =~= Seq::<RootAction>::empty());
    assert(spec_apply_all(s, steps) == spec_apply_all(s1, t1));
    assert(spec_apply_all(s1, t1) == spec_apply_all(s2, t2));
    assert(spec_apply_all(s2, t2) == spec_apply_all(s3, t3));
    assert(spec_apply_all(s3, t3) == spec_apply_all(s4, Seq::<RootAction>::empty()));
    assert(spec_apply_all(s4, Seq::<RootAction>::empty()) == s4);
}

/// Install-then-release ordering. Whatever the server held before, once the
/// four install steps have run, both atoms, the background attribute and the
/// new pixmap's existence are final: every longer prefix of the plan — so in
/// particular the state a failure leaves behind between install and release —
/// shows the new pixmap installed, never the old one.
pub proof fn lemma_install_then_release(
    s: ServerModel,
    prior: RootProps,
    new_pixmap: u64,
    cut: int,
)
    requires
        s.live.contains(new_pixmap),
        4 <= cut <= spec_install_plan(prior, new_pixmap).len(),
    ensures
        spec_apply_all(s, spec_install_plan(prior, new_pixmap).take(cut)).xroot == Some(
            new_pixmap,
        ),
        spec_apply_all(s, spec_install_plan(prior, new_pixmap).take(cut)).esetroot == Some(
            new_pixmap,
        ),
        spec_apply_all(s, spec_install_plan(prior, new_pixmap).take(cut)).background == Some(
            new_pixmap,
        ),
        spec_apply_all(s, spec_install_plan(prior, new_pixmap).take(cut)).live.contains(
            new_pixmap,
        ),
{
    let plan = spec_install_plan(prior, new_pixmap);
    let steps = spec_install_steps(new_pixmap);
    let frees_cut = spec_free_list(prior, new_pixmap).take(cut - 4);
    assert(plan.take(cut) =~= steps + frees_cut);
    lemma_apply_all_app(s, steps, frees_cut);
    lemma_install_steps(s, new_pixmap);
    let mid = spec_apply_all(s, steps);
    lemma_free_list_spares_new(prior, new_pixmap);
    assert(forall|i: int| 0 <= i < frees_cut.len() ==> frees_cut[i] == spec_free_list(
        prior,
        new_pixmap,
    )[i]);
    lemma_frees_preserve(mid, frees_cut, new_pixmap);
}

/// After the whole plan both atoms reference the same pixmap — the invariant
/// of the convention — and that pixmap still exists.
pub proof fn lemma_install_plan_installs(s: ServerModel, prior: RootProps, new_pixmap: u64)
    requires
        s.live.contains(new_pixmap),
    ensures
        spec_apply_all(s, spec_install_plan(prior, new_pixmap)).xroot == Some(new_pixmap),
        spec_apply_all(s, spec_install_plan(prior, new_pixmap)).esetroot == Some(new_pixmap),
        spec_apply_all(s, spec_install_plan(prior, new_pixmap)).background == Some(new_pixmap),
        spec_apply_all(s, spec_install_plan(prior, new_pixmap)).live.contains(new_pixmap),
{
    let plan = spec_install_plan(prior, new_pixmap);
    assert(plan.take(plan.len() as int) =~= plan);
    lemma_install_then_release(s, prior, new_pixmap, plan.len() as int);
}

/// The atom state an install leaves, as the next invocation will read it.
pub open spec fn spec_props_after(s: ServerModel) -> RootProps {
    RootProps { xroot: s.xroot, esetroot: s.esetroot }
}

/// Installing the same pixmap again is harmless: the second plan has nothing
/// to release, so it changes nothing — the atoms, the background and the set
/// of live pixmaps all stay exactly as the first install left them.
pub proof fn lemma_install_idempotent(s: ServerModel, prior: RootProps, new_pixmap: u64)
    requires
        s.live.contains(new_pixmap),
    ensures
        ({
            let once = spec_apply_all(s, spec_install_plan(prior, new_pixmap));
            let twice = spec_apply_all(
                once,
                spec_install_plan(spec_props_after(once), new_pixmap),
            );
            twice == once
        }),
{
    let once = spec_apply_all(s, spec_install_plan(prior, new_pixmap));
    lemma_install_plan_installs(s, prior, new_pixmap);
    let plan2 = spec_install_plan(spec_props_after(once), new_pixmap);
    assert(spec_free_list(spec_props_after(once), new_pixmap) =~= Seq::<RootAction>::empty());
    assert(plan2 =~= spec_install_steps(new_pixmap));
    lemma_install_steps(once, new_pixmap);
    let twice = spec_apply_all(once, plan2);
    assert(twice == spec_apply_all(once, spec_install_steps(new_pixmap)));
    assert(twice.live =~= once.live);
    assert(twice =~= once);
}

} // verus!
