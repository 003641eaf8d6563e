//! The KDE blur protocol: what a client sets is what its surface gets.

use vstd::prelude::*;

use crate::geometry::Rectangle;
use crate::kde_blur::{
    manager_request, Action, BlurArea, BlurRequest, BlurRequestModel, Event, KdeBlurRegion,
    KdeBlurSurfaceCachedState, KdeBlurSurfaceUserData, ManagerRequest, Notice, RectangleKind,
    RegionAttributes, Session, SurfaceBlur, SurfaceId,
};

verus! {

/// The blur region is what a client asks for with a region: the very rects that it sent, or the
/// whole surface if it sent none.
pub open spec fn asked_for(blur_region: KdeBlurRegion, region: Option<RegionAttributes>) -> bool {
    match region {
        Some(sent) => if sent.rects@.len() > 0 {
            blur_region matches KdeBlurRegion::Region(r) && r.rects@ == sent.rects@
        } else {
            blur_region is WholeSurface
        },
        None => blur_region is WholeSurface,
    }
}

/// Two blur regions are the whole surface, or the same rects.
pub open spec fn same_region(a: KdeBlurRegion, b: KdeBlurRegion) -> bool {
    match (a, b) {
        (KdeBlurRegion::WholeSurface, KdeBlurRegion::WholeSurface) => true,
        (KdeBlurRegion::Region(r), KdeBlurRegion::Region(s)) => r.rects@ == s.rects@,
        _ => false,
    }
}

/// Two states have no blur, or the same blur region.
pub open spec fn same_state(
    a: KdeBlurSurfaceCachedState,
    b: KdeBlurSurfaceCachedState,
) -> bool {
    &&& a.blur_region is Some <==> b.blur_region is Some
    &&& a.blur_region matches Some(r) ==> same_region(r, b.blur_region->0)
}

/// A region is taken over as it was sent.
pub proof fn regions_are_taken_over(
    region: Option<RegionAttributes>,
    r: KdeBlurRegion,
    copy: KdeBlurRegion,
)
    requires
        call_ensures(KdeBlurRegion::from_request, (region,), r),
        call_ensures(<KdeBlurRegion as Clone>::clone, (&r,), copy),
    ensures
        asked_for(r, region),
        same_region(copy, r),
{
}

/// Each request to a blur object does its part, and no other: setting a region chooses it, a
/// commit writes what is chosen to a surface that is still there, and nothing else has an effect.
pub proof fn requests_do_their_part(
    data: &mut KdeBlurSurfaceUserData,
    request: BlurRequest,
    alive: bool,
    action: Action,
)
    requires
        call_ensures(KdeBlurSurfaceUserData::request, (data, request, alive), action),
    ensures
        final(data).surface == old(data).surface,
        request matches BlurRequest::SetRegion { region } ==> asked_for(
            final(data).pending_region,
            region,
        ) && action is Nothing,
        !(request is SetRegion) ==> same_region(
            final(data).pending_region,
            old(data).pending_region,
        ),
        request is Commit && alive ==> {
            &&& action matches Action::Write { surface, blur_region: Some(written) }
            &&& surface == old(data).surface
            &&& same_region(written, old(data).pending_region)
        },
        request is Commit && !alive ==> action is Nothing,
        request is Release || request is Other ==> action is Nothing,
{
}

/// The blur manager creates blur objects that start with the whole surface, and unsets the blur of
/// the surface it is told.
pub proof fn manager_does_its_part(request: ManagerRequest, action: Action)
    requires
        call_ensures(manager_request, (request,), action),
    ensures
        request matches ManagerRequest::Create { surface } ==> {
            &&& action matches Action::Init { data }
            &&& data.surface == surface
            &&& data.pending_region is WholeSurface
        },
        request matches ManagerRequest::Unset { surface } ==> {
            &&& action matches Action::Write { surface: s, blur_region: None }
            &&& s == surface
        },
        request is Other ==> action is Nothing,
{
}

/// A blur object starts with the whole surface, knows its surface as long as that is there, and
/// leaves nothing to do when it goes.
pub proof fn blur_objects_know_their_surface(
    surface: SurfaceId,
    data: KdeBlurSurfaceUserData,
    alive: bool,
    found: Option<SurfaceId>,
    action: Action,
)
    requires
        call_ensures(KdeBlurSurfaceUserData::new, (surface,), data),
        call_ensures(KdeBlurSurfaceUserData::wl_surface, (&data, alive), found),
        call_ensures(KdeBlurSurfaceUserData::destroyed, (&data,), action),
    ensures
        data.surface == surface,
        data.pending_region is WholeSurface,
        alive ==> found == Some(surface),
        !alive ==> found is None,
        action is Nothing,
{
}

/// What is written to a surface waits for its commit, which makes it current and leaves it
/// pending.
pub proof fn writes_wait_for_the_commit(
    pending: &mut KdeBlurSurfaceCachedState,
    blur_region: Option<KdeBlurRegion>,
    notice: Notice,
    committing: &mut KdeBlurSurfaceCachedState,
    cached: KdeBlurSurfaceCachedState,
    current: &mut KdeBlurSurfaceCachedState,
)
    requires
        call_ensures(KdeBlurSurfaceCachedState::write, (pending, blur_region), notice),
        *old(committing) == *final(pending),
        call_ensures(KdeBlurSurfaceCachedState::commit, (committing,), cached),
        call_ensures(KdeBlurSurfaceCachedState::merge_into, (cached, current), ()),
    ensures
        final(pending).blur_region == blur_region,
        blur_region is Some ==> notice is SetBlurRegion,
        blur_region is None ==> notice is UnsetBlurRegion,
        same_state(*final(committing), *old(committing)),
        same_state(*final(current), *old(committing)),
        same_state(*final(current), KdeBlurSurfaceCachedState { blur_region }),
{
}

/// What a client sets is what its surface gets: once a region has been set, the blur object
/// committed and then the surface, the surface has exactly the rects that were sent, with their
/// kinds and in their order. An empty region, like none, gives it the whole surface.
pub proof fn surfaces_get_what_clients_set(
    setting: &mut KdeBlurSurfaceUserData,
    region: Option<RegionAttributes>,
    set: Action,
    committing: &mut KdeBlurSurfaceUserData,
    written: Action,
    pending: &mut KdeBlurSurfaceCachedState,
    notice: Notice,
    surface: &mut KdeBlurSurfaceCachedState,
    cached: KdeBlurSurfaceCachedState,
    current: &mut KdeBlurSurfaceCachedState,
)
    requires
        call_ensures(
            KdeBlurSurfaceUserData::request,
            (setting, BlurRequest::SetRegion { region }, true),
            set,
        ),
        *old(committing) == *final(setting),
        call_ensures(
            KdeBlurSurfaceUserData::request,
            (committing, BlurRequest::Commit, true),
            written,
        ),
        call_ensures(
            KdeBlurSurfaceCachedState::write,
            (pending, written->blur_region),
            notice,
        ),
        *old(surface) == *final(pending),
        call_ensures(KdeBlurSurfaceCachedState::commit, (surface,), cached),
        call_ensures(KdeBlurSurfaceCachedState::merge_into, (cached, current), ()),
    ensures
        set is Nothing,
        written is Write && written->surface == old(setting).surface,
        notice is SetBlurRegion,
        final(current).blur_region matches Some(r) && asked_for(r, region),
        region matches Some(sent) ==> (sent.rects@.len() > 0 ==> {
            &&& final(current).blur_region matches Some(KdeBlurRegion::Region(got))
            &&& got.rects@.len() == sent.rects@.len()
            &&& forall|i: int|
                0 <= i < sent.rects@.len() ==> #[trigger] got.rects@[i] == sent.rects@[i]
        }),
{
    requests_do_their_part(setting, BlurRequest::SetRegion { region }, true, set);
    requests_do_their_part(committing, BlurRequest::Commit, true, written);
    writes_wait_for_the_commit(
        pending,
        written->blur_region,
        notice,
        surface,
        cached,
        current,
    );
}

/// The same of a blur object that is kept together with the state of its surface.
pub proof fn sessions_get_what_clients_set(
    setting: &mut SurfaceBlur,
    region: Option<RegionAttributes>,
    set: Option<Notice>,
    committing: &mut SurfaceBlur,
    written: Option<Notice>,
    surface: &mut SurfaceBlur,
)
    requires
        call_ensures(
            SurfaceBlur::request,
            (setting, BlurRequest::SetRegion { region }, true),
            set,
        ),
        *old(committing) == *final(setting),
        call_ensures(SurfaceBlur::request, (committing, BlurRequest::Commit, true), written),
        *old(surface) == *final(committing),
        call_ensures(SurfaceBlur::commit_surface, (surface,), ()),
    ensures
        set is None,
        same_state(final(setting).pending, old(setting).pending),
        same_state(final(setting).current, old(setting).current),
        written == Some(Notice::SetBlurRegion),
        same_state(final(committing).current, old(setting).current),
        final(surface).current.blur_region matches Some(r) && asked_for(r, region),
        final(surface).pending.blur_region matches Some(r) && asked_for(r, region),
        asked_for(final(surface).data.pending_region, region),
        final(surface).data.surface == old(setting).data.surface,
{
}

/// A blur object that is kept together with the state of its surface: it starts with the whole
/// surface, its end changes nothing, and unsetting the blur waits for the commit of the surface.
pub proof fn sessions_end_and_unset(
    id: SurfaceId,
    pending: KdeBlurSurfaceCachedState,
    current: KdeBlurSurfaceCachedState,
    created: SurfaceBlur,
    ending: &mut SurfaceBlur,
    end: Option<Notice>,
    unsetting: &mut SurfaceBlur,
    unset: Option<Notice>,
    surface: &mut SurfaceBlur,
)
    requires
        call_ensures(SurfaceBlur::create, (id, pending, current), created),
        call_ensures(SurfaceBlur::destroyed, (ending,), end),
        call_ensures(SurfaceBlur::unset, (unsetting,), unset),
        *old(surface) == *final(unsetting),
        call_ensures(SurfaceBlur::commit_surface, (surface,), ()),
    ensures
        created.data.surface == id,
        created.data.pending_region is WholeSurface,
        created.pending == pending,
        created.current == current,
        *final(ending) == *old(ending),
        end is None,
        unset == Some(Notice::UnsetBlurRegion),
        final(unsetting).pending.blur_region is None,
        same_state(final(unsetting).current, old(unsetting).current),
        same_region(final(unsetting).data.pending_region, old(unsetting).data.pending_region),
        final(surface).current.blur_region is None,
        final(surface).pending.blur_region is None,
        same_region(final(surface).data.pending_region, old(unsetting).data.pending_region),
{
}

/// The event sets no region.
pub open spec fn sets_no_region(event: Event) -> bool {
    !(event matches Event::Request { request: BlurRequestModel::SetRegion(_), .. })
}

/// The event neither commits the blur object nor the surface, and does not unset the blur.
pub open spec fn writes_nothing(event: Event) -> bool {
    &&& !(event is Unset)
    &&& !(event is SurfaceCommit)
    &&& !(event matches Event::Request { request: BlurRequestModel::Commit, .. })
}

proof fn area_stays(session: Session, events: Seq<Event>)
    requires
        forall|i: int| 0 <= i < events.len() ==> sets_no_region(#[trigger] events[i]),
    ensures
        session.after_all(events).area == session.area,
    decreases events.len(),
{
    if events.len() > 0 {
        let rest = events.drop_last();
        assert(sets_no_region(events[events.len() - 1]));
        assert forall|i: int| 0 <= i < rest.len() implies sets_no_region(#[trigger] rest[i]) by {
            assert(rest[i] == events[i]);
        }
        area_stays(session, rest);
    }
}

proof fn surface_stays(session: Session, events: Seq<Event>)
    requires
        forall|i: int| 0 <= i < events.len() ==> writes_nothing(#[trigger] events[i]),
    ensures
        session.after_all(events).pending == session.pending,
        session.after_all(events).current == session.current,
    decreases events.len(),
{
    if events.len() > 0 {
        let rest = events.drop_last();
        assert(writes_nothing(events[events.len() - 1]));
        assert forall|i: int| 0 <= i < rest.len() implies writes_nothing(#[trigger] rest[i]) by {
            assert(rest[i] == events[i]);
        }
        surface_stays(session, rest);
    }
}

/// Whatever happened before, and whatever else happens in between, the rects that were set last
/// before the blur object was committed are the rects of the surface once that is committed.
pub proof fn last_region_reaches_the_surface(
    start: Session,
    before: Seq<Event>,
    rects: Seq<(RectangleKind, Rectangle<i32>)>,
    unrelated: Seq<Event>,
    waiting: Seq<Event>,
    alive: bool,
)
    requires
        rects.len() > 0,
        forall|i: int| 0 <= i < unrelated.len() ==> sets_no_region(#[trigger] unrelated[i]),
        forall|i: int| 0 <= i < waiting.len() ==> writes_nothing(#[trigger] waiting[i]),
    ensures
        ({
            let set = Event::Request {
                request: BlurRequestModel::SetRegion(Some(rects)),
                alive,
            };
            let commit = Event::Request { request: BlurRequestModel::Commit, alive: true };
            let committed = start.after_all(before).after(set).after_all(unrelated).after(
                commit,
            ).after_all(waiting).after(Event::SurfaceCommit);
            committed.current == Some(BlurArea::Region(rects))
        }),
{
    let set = Event::Request { request: BlurRequestModel::SetRegion(Some(rects)), alive };
    let commit = Event::Request { request: BlurRequestModel::Commit, alive: true };
    let chosen = start.after_all(before).after(set);
    area_stays(chosen, unrelated);
    surface_stays(chosen.after_all(unrelated).after(commit), waiting);
}

} // verus!
