use wall::error::WallError;
use wall::root::{install_plan, read_atom, RootAction, RootAtom, RootProps};

fn install_prefix(new: u64) -> Vec<RootAction> {
    vec![
        RootAction::SetAtom { atom: RootAtom::XRootPmapId, pixmap: new },
        RootAction::SetAtom { atom: RootAtom::EsetrootPmapId, pixmap: new },
        RootAction::SetBackground { pixmap: new },
        RootAction::ClearAndFlush,
    ]
}

#[test]
fn first_install_frees_nothing() {
    let prior = RootProps { xroot: None, esetroot: None };
    let plan = install_plan(&prior, 7);
    assert_eq!(plan, install_prefix(7));
}

#[test]
fn old_wallpaper_is_freed_after_install() {
    let prior = RootProps { xroot: Some(3), esetroot: Some(4) };
    let plan = install_plan(&prior, 7);
    let mut want = install_prefix(7);
    want.push(RootAction::FreePixmap { pixmap: 3 });
    want.push(RootAction::FreePixmap { pixmap: 4 });
    assert_eq!(plan, want);
    // Install-then-release: every free comes after the last install step.
    let first_free = plan
        .iter()
        .position(|a| matches!(a, RootAction::FreePixmap { .. }))
        .unwrap();
    assert_eq!(first_free, 4);
}

#[test]
fn a_shared_prior_handle_is_freed_once() {
    let prior = RootProps { xroot: Some(5), esetroot: Some(5) };
    let plan = install_plan(&prior, 7);
    let mut want = install_prefix(7);
    want.push(RootAction::FreePixmap { pixmap: 5 });
    assert_eq!(plan, want);
}

#[test]
fn reinstalling_the_same_pixmap_frees_nothing() {
    let prior = RootProps { xroot: Some(7), esetroot: Some(7) };
    let plan = install_plan(&prior, 7);
    assert_eq!(plan, install_prefix(7));
}

#[test]
fn read_atom_prefers_xroot() {
    let props = RootProps { xroot: Some(11), esetroot: Some(12) };
    assert_eq!(read_atom(&props), Ok(11));
}

#[test]
fn read_atom_falls_back_to_esetroot() {
    let props = RootProps { xroot: None, esetroot: Some(12) };
    assert_eq!(read_atom(&props), Ok(12));
}

#[test]
fn read_atom_without_atoms_is_no_wallpaper_set() {
    let props = RootProps { xroot: None, esetroot: None };
    assert_eq!(read_atom(&props), Err(WallError::NoWallpaperSet));
}
