use layer_effects::geometry::{Point, Rectangle, Size};
use layer_effects::kde_blur::{
    manager_request, Action, BlurRequest, KdeBlurRegion, KdeBlurSurfaceCachedState,
    KdeBlurSurfaceUserData, ManagerRequest, Notice, RectangleKind, RegionAttributes, SurfaceBlur,
    SurfaceId,
};

fn region(n: i32) -> RegionAttributes {
    let mut rects = Vec::new();
    for i in 0..n {
        let kind = if i % 2 == 0 { RectangleKind::Add } else { RectangleKind::Subtract };
        rects.push((
            kind,
            Rectangle { loc: Point { x: i, y: 0 }, size: Size { w: 10, h: 20 } },
        ));
    }
    RegionAttributes { rects }
}

fn surface() -> SurfaceId {
    SurfaceId { id: 42 }
}

fn perform(action: Action, pending: &mut KdeBlurSurfaceCachedState) -> Option<Notice> {
    match action {
        Action::Nothing => None,
        Action::Init { .. } => panic!("unexpected setup"),
        Action::Write { surface: id, blur_region } => {
            assert_eq!(id, surface());
            Some(pending.write(blur_region))
        }
    }
}

fn commit_surface(pending: &mut KdeBlurSurfaceCachedState, current: &mut KdeBlurSurfaceCachedState) {
    pending.commit().merge_into(current);
}

#[test]
fn creation_starts_with_the_whole_surface() {
    let Action::Init { data } = manager_request(ManagerRequest::Create { surface: surface() }) else {
        panic!("expected setup");
    };
    assert_eq!(data.surface, surface());
    assert_eq!(data.pending_region, KdeBlurRegion::WholeSurface);
    assert_eq!(KdeBlurRegion::default(), KdeBlurRegion::WholeSurface);
    assert!(matches!(manager_request(ManagerRequest::Other), Action::Nothing));
}

#[test]
fn region_becomes_current_in_two_commits() {
    let mut data = KdeBlurSurfaceUserData::new(surface());
    let mut pending = KdeBlurSurfaceCachedState::default();
    let mut current = KdeBlurSurfaceCachedState::default();
    assert_eq!(pending.blur_region, None);

    let set = data.request(BlurRequest::SetRegion { region: Some(region(3)) }, true);
    assert_eq!(perform(set, &mut pending), None);
    commit_surface(&mut pending, &mut current);
    assert_eq!(current.blur_region, None);

    let commit = data.request(BlurRequest::Commit, true);
    assert_eq!(perform(commit, &mut pending), Some(Notice::SetBlurRegion));
    assert_eq!(current.blur_region, None);
    commit_surface(&mut pending, &mut current);
    assert_eq!(current.blur_region, Some(KdeBlurRegion::Region(region(3))));
    assert_eq!(pending.blur_region, Some(KdeBlurRegion::Region(region(3))));
    assert_eq!(data.pending_region, KdeBlurRegion::Region(region(3)));
}

#[test]
fn empty_and_missing_regions_mean_the_whole_surface() {
    let mut data = KdeBlurSurfaceUserData::new(surface());
    data.request(BlurRequest::SetRegion { region: Some(region(1)) }, true);
    assert_eq!(data.pending_region, KdeBlurRegion::Region(region(1)));
    data.request(BlurRequest::SetRegion { region: Some(region(0)) }, true);
    assert_eq!(data.pending_region, KdeBlurRegion::WholeSurface);
    data.request(BlurRequest::SetRegion { region: Some(region(2)) }, true);
    data.request(BlurRequest::SetRegion { region: None }, true);
    assert_eq!(data.pending_region, KdeBlurRegion::WholeSurface);
}

#[test]
fn commit_without_region_blurs_the_whole_surface() {
    let mut data = KdeBlurSurfaceUserData::new(surface());
    let mut pending = KdeBlurSurfaceCachedState::default();
    let action = data.request(BlurRequest::Commit, true);
    assert_eq!(perform(action, &mut pending), Some(Notice::SetBlurRegion));
    assert_eq!(pending.blur_region, Some(KdeBlurRegion::WholeSurface));
}

#[test]
fn unset_removes_a_region() {
    let mut pending =
        KdeBlurSurfaceCachedState { blur_region: Some(KdeBlurRegion::Region(region(1))) };
    let mut current = pending.clone();
    let action = manager_request(ManagerRequest::Unset { surface: surface() });
    assert_eq!(perform(action, &mut pending), Some(Notice::UnsetBlurRegion));
    assert_eq!(pending.blur_region, None);
    assert_eq!(current.blur_region, Some(KdeBlurRegion::Region(region(1))));
    commit_surface(&mut pending, &mut current);
    assert_eq!(current.blur_region, None);
}

#[test]
fn requests_without_effect() {
    let mut data = KdeBlurSurfaceUserData::new(surface());
    data.request(BlurRequest::SetRegion { region: Some(region(2)) }, true);
    assert!(matches!(data.request(BlurRequest::Commit, false), Action::Nothing));
    assert!(matches!(data.request(BlurRequest::Release, true), Action::Nothing));
    assert!(matches!(data.request(BlurRequest::Other, true), Action::Nothing));
    assert_eq!(data.pending_region, KdeBlurRegion::Region(region(2)));
    assert_eq!(data.wl_surface(true), Some(surface()));
    assert_eq!(data.wl_surface(false), None);
}

#[test]
fn requests_between_the_commits_do_not_matter() {
    let mut data = KdeBlurSurfaceUserData::new(surface());
    let mut pending = KdeBlurSurfaceCachedState::default();
    let mut current = KdeBlurSurfaceCachedState::default();
    data.request(BlurRequest::SetRegion { region: Some(region(1)) }, true);
    data.request(BlurRequest::SetRegion { region: Some(region(4)) }, true);
    let commit = data.request(BlurRequest::Commit, true);
    perform(commit, &mut pending);
    let later = data.request(BlurRequest::SetRegion { region: Some(region(5)) }, true);
    perform(later, &mut pending);
    commit_surface(&mut pending, &mut current);
    commit_surface(&mut pending, &mut current);
    assert_eq!(current.blur_region, Some(KdeBlurRegion::Region(region(4))));
}

#[test]
fn a_blur_object_with_its_surface() {
    let none = KdeBlurSurfaceCachedState::default;
    let mut blur = SurfaceBlur::create(surface(), none(), none());
    assert_eq!(blur.data.surface, surface());
    assert_eq!(blur.pending.blur_region, None);
    assert_eq!(blur.current.blur_region, None);

    let set = BlurRequest::SetRegion { region: Some(region(3)) };
    assert_eq!(blur.request(set, true), None);
    assert_eq!(blur.request(BlurRequest::Commit, false), None);
    blur.commit_surface();
    assert_eq!(blur.current.blur_region, None);
    assert_eq!(blur.request(BlurRequest::Commit, true), Some(Notice::SetBlurRegion));
    assert_eq!(blur.current.blur_region, None);
    blur.commit_surface();
    assert_eq!(blur.current.blur_region, Some(KdeBlurRegion::Region(region(3))));

    assert_eq!(blur.unset(), Some(Notice::UnsetBlurRegion));
    assert_eq!(blur.current.blur_region, Some(KdeBlurRegion::Region(region(3))));
    blur.commit_surface();
    assert_eq!(blur.current.blur_region, None);
    assert_eq!(blur.data.pending_region, KdeBlurRegion::Region(region(3)));
}

#[test]
fn what_was_written_outlives_the_blur_object() {
    let none = KdeBlurSurfaceCachedState::default;
    let mut blur = SurfaceBlur::create(surface(), none(), none());
    blur.request(BlurRequest::SetRegion { region: Some(region(2)) }, true);
    blur.request(BlurRequest::Commit, true);
    assert!(matches!(blur.data.destroyed(), Action::Nothing));
    assert_eq!(blur.destroyed(), None);
    assert_eq!(blur.pending.blur_region, Some(KdeBlurRegion::Region(region(2))));
    blur.commit_surface();
    assert_eq!(blur.current.blur_region, Some(KdeBlurRegion::Region(region(2))));
}

#[test]
fn a_second_blur_object_starts_with_the_whole_surface() {
    let state = || KdeBlurSurfaceCachedState {
        blur_region: Some(KdeBlurRegion::Region(region(1))),
    };
    let mut blur = SurfaceBlur::create(surface(), state(), state());
    assert_eq!(blur.data.pending_region, KdeBlurRegion::WholeSurface);
    assert_eq!(blur.current, state());
    blur.request(BlurRequest::Commit, true);
    assert_eq!(blur.current, state());
    blur.commit_surface();
    assert_eq!(blur.current.blur_region, Some(KdeBlurRegion::WholeSurface));

    let mut blur = SurfaceBlur::create(surface(), blur.pending, blur.current);
    blur.request(BlurRequest::SetRegion { region: Some(region(5)) }, true);
    blur.request(BlurRequest::Commit, true);
    blur.commit_surface();
    assert_eq!(blur.current.blur_region, Some(KdeBlurRegion::Region(region(5))));
}
