//! The KDE blur protocol: how a client asks for blur behind a surface.
//!
//! A client creates a blur object for a surface, sets a region on it, and commits it. That writes
//! the region to the pending state of the surface, which becomes current when the surface itself
//! is committed.

use vstd::prelude::*;

use crate::geometry::Rectangle;

verus! {

/// A surface, by the number under which it is found again.
#[derive(Debug, Clone, Copy, PartialEq, Eq, Structural)]
pub struct SurfaceId {
    pub id: u64,
}

/// Whether a rectangle is added to a region or taken away from it.
#[derive(Debug, Clone, Copy, PartialEq, Eq, Structural)]
pub enum RectangleKind {
    Add,
    Subtract,
}

/// A region: rectangles that are added and subtracted in order.
#[derive(Debug, PartialEq)]
pub struct RegionAttributes {
    pub rects: Vec<(RectangleKind, Rectangle<i32>)>,
}

/// The rectangles of a region, in order.
pub type RegionRects = Seq<(RectangleKind, Rectangle<i32>)>;

impl View for RegionAttributes {
    type V = RegionRects;

    open spec fn view(&self) -> RegionRects {
        self.rects@
    }
}

impl Clone for RegionAttributes {
    fn clone(&self) -> (r: Self)
        ensures
            r@ == self@,
    {
        let mut rects: Vec<(RectangleKind, Rectangle<i32>)> = Vec::new();
        for i in 0..self.rects.len()
            invariant
                rects@ == self.rects@.take(i as int),
        {
            rects.push(self.rects[i]);
            assert(rects@ =~= self.rects@.take(i + 1));
        }
        assert(rects@ =~= self.rects@);
        RegionAttributes { rects }
    }
}

/// The part of a surface that has its background blurred.
#[derive(Debug, PartialEq)]
pub enum KdeBlurRegion {
    WholeSurface,
    Region(RegionAttributes),
}

/// What a [`KdeBlurRegion`] stands for.
pub enum BlurArea {
    WholeSurface,
    Region(RegionRects),
}

impl BlurArea {
    /// A region that is given always has rectangles.
    pub open spec fn well_formed(self) -> bool {
        self matches BlurArea::Region(rects) ==> rects.len() > 0
    }
}

/// In the KDE blur protocol, an empty region means the whole surface, as does no region.
pub open spec fn area_for(region: Option<RegionRects>) -> BlurArea {
    match region {
        Some(rects) => if rects.len() > 0 {
            BlurArea::Region(rects)
        } else {
            BlurArea::WholeSurface
        },
        None => BlurArea::WholeSurface,
    }
}

impl View for KdeBlurRegion {
    type V = BlurArea;

    open spec fn view(&self) -> BlurArea {
        match self {
            KdeBlurRegion::WholeSurface => BlurArea::WholeSurface,
            KdeBlurRegion::Region(region) => BlurArea::Region(region@),
        }
    }
}

impl Clone for KdeBlurRegion {
    fn clone(&self) -> (r: Self)
        ensures
            r@ == self@,
    {
        match self {
            KdeBlurRegion::WholeSurface => KdeBlurRegion::WholeSurface,
            KdeBlurRegion::Region(region) => KdeBlurRegion::Region(region.clone()),
        }
    }
}

impl Default for KdeBlurRegion {
    fn default() -> (r: Self)
        ensures
            r@ == BlurArea::WholeSurface,
    {
        KdeBlurRegion::WholeSurface
    }
}

impl KdeBlurRegion {
    /// The area that a client asks for with a region.
    pub fn from_request(region: Option<RegionAttributes>) -> (r: Self)
        ensures
            r@ == area_for(
                match region {
                    Some(attributes) => Some(attributes@),
                    None => None,
                },
            ),
    {
        match region {
            Some(region) => if region.rects.len() > 0 {
                KdeBlurRegion::Region(region)
            } else {
                KdeBlurRegion::WholeSurface
            },
            None => KdeBlurRegion::WholeSurface,
        }
    }
}

/// What a surface is told of a change to its pending state.
#[derive(Debug, Clone, Copy, PartialEq, Eq, Structural)]
pub enum Notice {
    /// A blur region became pending on the surface, awaiting a commit.
    SetBlurRegion,
    /// A blur region unset became pending on the surface, awaiting a commit.
    UnsetBlurRegion,
}

/// The blur that a surface asks for: double-buffered state of the surface.
#[derive(Debug, PartialEq)]
pub struct KdeBlurSurfaceCachedState {
    /// Region of the surface that will have its background blurred.
    ///
    /// `None` means no blurring.
    pub blur_region: Option<KdeBlurRegion>,
}

impl View for KdeBlurSurfaceCachedState {
    type V = Option<BlurArea>;

    open spec fn view(&self) -> Option<BlurArea> {
        match self.blur_region {
            Some(region) => Some(region@),
            None => None,
        }
    }
}

impl Default for KdeBlurSurfaceCachedState {
    fn default() -> (r: Self)
        ensures
            r@ is None,
    {
        KdeBlurSurfaceCachedState { blur_region: None }
    }
}

impl Clone for KdeBlurSurfaceCachedState {
    fn clone(&self) -> (r: Self)
        ensures
            r@ == self@,
    {
        KdeBlurSurfaceCachedState {
            blur_region: match &self.blur_region {
                Some(region) => Some(region.clone()),
                None => None,
            },
        }
    }
}

impl KdeBlurSurfaceCachedState {
    /// Produces the state to be cached. What is pending stays pending.
    pub fn commit(&mut self) -> (r: Self)
        ensures
            r@ == old(self)@,
            *final(self) == *old(self),
    {
        self.clone()
    }

    /// Takes the place of the state that was there.
    pub fn merge_into(self, into: &mut Self)
        ensures
            *final(into) == self,
    {
        *into = self;
    }

    /// Writes the blur region that becomes pending, and says what the surface is told.
    pub fn write(&mut self, blur_region: Option<KdeBlurRegion>) -> (r: Notice)
        ensures
            final(self).blur_region == blur_region,
            r == (if blur_region is Some {
                Notice::SetBlurRegion
            } else {
                Notice::UnsetBlurRegion
            }),
    {
        let notice = if blur_region.is_some() {
            Notice::SetBlurRegion
        } else {
            Notice::UnsetBlurRegion
        };
        self.blur_region = blur_region;
        notice
    }
}

/// A request to the blur manager.
#[derive(Debug)]
pub enum ManagerRequest {
    /// Create a blur object for a surface.
    Create { surface: SurfaceId },
    /// Remove the blur of a surface.
    Unset { surface: SurfaceId },
    Other,
}

/// A request to a blur object.
#[derive(Debug)]
pub enum BlurRequest {
    /// Choose the region that the next commit writes.
    SetRegion { region: Option<RegionAttributes> },
    /// Write the chosen region to the surface.
    Commit,
    Release,
    Other,
}

/// What a [`BlurRequest`] stands for.
pub enum BlurRequestModel {
    SetRegion(Option<RegionRects>),
    Commit,
    Release,
    Other,
}

impl View for BlurRequest {
    type V = BlurRequestModel;

    open spec fn view(&self) -> BlurRequestModel {
        match self {
            BlurRequest::SetRegion { region } => BlurRequestModel::SetRegion(
                match region {
                    Some(attributes) => Some(attributes@),
                    None => None,
                },
            ),
            BlurRequest::Commit => BlurRequestModel::Commit,
            BlurRequest::Release => BlurRequestModel::Release,
            BlurRequest::Other => BlurRequestModel::Other,
        }
    }
}

/// What has to be done in answer to a request.
#[derive(Debug)]
pub enum Action {
    Nothing,
    /// Set up the blur object with its data.
    Init { data: KdeBlurSurfaceUserData },
    /// [Write](KdeBlurSurfaceCachedState::write) to the pending state of the surface, then give
    /// the notice to the surface.
    Write { surface: SurfaceId, blur_region: Option<KdeBlurRegion> },
}

/// The area chosen on a blur object after a request.
pub open spec fn area_after(area: BlurArea, request: BlurRequestModel) -> BlurArea {
    match request {
        BlurRequestModel::SetRegion(region) => area_for(region),
        _ => area,
    }
}

/// A request writes the chosen area to the surface: a commit does, as long as the surface is
/// alive.
pub open spec fn writes(request: BlurRequestModel, alive: bool) -> bool {
    request is Commit && alive
}

/// The data of a blur object.
#[derive(Debug)]
pub struct KdeBlurSurfaceUserData {
    pub surface: SurfaceId,
    pub pending_region: KdeBlurRegion,
}

impl KdeBlurSurfaceUserData {
    pub fn new(surface: SurfaceId) -> (r: Self)
        ensures
            r.surface == surface,
            r.pending_region@ == BlurArea::WholeSurface,
    {
        KdeBlurSurfaceUserData { surface, pending_region: KdeBlurRegion::WholeSurface }
    }

    /// The surface, unless it is gone.
    pub fn wl_surface(&self, alive: bool) -> (r: Option<SurfaceId>)
        ensures
            r == (if alive {
                Some(self.surface)
            } else {
                None
            }),
    {
        if alive {
            Some(self.surface)
        } else {
            None
        }
    }

    /// Answers a request to the blur object. `alive` says whether its surface is still there.
    pub fn request(&mut self, request: BlurRequest, alive: bool) -> (r: Action)
        ensures
            final(self).surface == old(self).surface,
            final(self).pending_region@ == area_after(old(self).pending_region@, request@),
            writes(request@, alive) ==> (r matches Action::Write { surface, blur_region }
                && surface == old(self).surface && (blur_region matches Some(region) && region@
                == old(self).pending_region@)),
            !writes(request@, alive) ==> r is Nothing,
    {
        match request {
            BlurRequest::SetRegion { region } => {
                self.pending_region = KdeBlurRegion::from_request(region);
                Action::Nothing
            },
            BlurRequest::Commit => match self.wl_surface(alive) {
                Some(surface) => {
                    let region = self.pending_region.clone();
                    Action::Write { surface, blur_region: Some(region) }
                },
                None => Action::Nothing,
            },
            BlurRequest::Release => Action::Nothing,
            BlurRequest::Other => Action::Nothing,
        }
    }

    /// Answers the end of the blur object: what was written to its surface stays there.
    pub fn destroyed(&self) -> (r: Action)
        ensures
            r is Nothing,
    {
        // Cleanup is handled by double-buffering and surface destruction.
        Action::Nothing
    }
}

/// Answers a request to the blur manager.
pub fn manager_request(request: ManagerRequest) -> (r: Action)
    ensures
        match request {
            ManagerRequest::Create { surface } => {
                &&& r matches Action::Init { data }
                &&& data.surface == surface
                &&& data.pending_region@ == BlurArea::WholeSurface
            },
            ManagerRequest::Unset { surface } => r == (Action::Write {
                surface,
                blur_region: None,
            }),
            ManagerRequest::Other => r is Nothing,
        },
{
    match request {
        ManagerRequest::Create { surface } => Action::Init {
            data: KdeBlurSurfaceUserData::new(surface),
        },
        ManagerRequest::Unset { surface } => Action::Write { surface, blur_region: None },
        ManagerRequest::Other => Action::Nothing,
    }
}

/// A blur object and the state of its surface.
pub struct Session {
    /// The area chosen on the blur object.
    pub area: BlurArea,
    /// The pending state of the surface.
    pub pending: Option<BlurArea>,
    /// The current state of the surface.
    pub current: Option<BlurArea>,
}

/// What may happen to a blur object and its surface.
pub enum Event {
    /// A request to the blur object.
    Request { request: BlurRequestModel, alive: bool },
    /// The blur object is gone.
    Destroyed,
    /// The blur manager removes the blur of the surface.
    Unset,
    /// The surface is committed: its pending state is committed and merged into the current one.
    SurfaceCommit,
}

impl Event {
    /// The event changes nothing on the surface, neither what is pending nor what is current.
    pub open spec fn leaves_surface(self) -> bool {
        match self {
            Event::Request { request, alive } => !writes(request, alive),
            Event::Destroyed => true,
            Event::Unset => false,
            Event::SurfaceCommit => false,
        }
    }
}

/// None of the events changes anything on the surface.
pub open spec fn all_leave_surface(events: Seq<Event>) -> bool {
    forall|i: int| 0 <= i < events.len() ==> (#[trigger] events[i]).leaves_surface()
}

impl Session {
    /// A blur object that was just created on a surface with the given state.
    pub open spec fn created(pending: Option<BlurArea>, current: Option<BlurArea>) -> Self {
        Session { area: BlurArea::WholeSurface, pending, current }
    }

    /// A blur object that was just created on a surface that has never asked for blur.
    pub open spec fn initial() -> Self {
        Session::created(None, None)
    }

    pub open spec fn well_formed(self) -> bool {
        &&& self.area.well_formed()
        &&& self.pending matches Some(area) ==> area.well_formed()
        &&& self.current matches Some(area) ==> area.well_formed()
    }

    pub open spec fn after(self, event: Event) -> Self {
        match event {
            Event::Request { request, alive } => Session {
                area: area_after(self.area, request),
                pending: if writes(request, alive) {
                    Some(self.area)
                } else {
                    self.pending
                },
                current: self.current,
            },
            Event::Destroyed => self,
            Event::Unset => Session { pending: None, ..self },
            Event::SurfaceCommit => Session { current: self.pending, ..self },
        }
    }

    /// The session after a series of events.
    pub open spec fn after_all(self, events: Seq<Event>) -> Self
        decreases events.len(),
    {
        if events.len() == 0 {
            self
        } else {
            self.after_all(events.drop_last()).after(events.last())
        }
    }
}

/// A blur object together with the pending and the current state of its surface.
#[derive(Debug)]
pub struct SurfaceBlur {
    pub data: KdeBlurSurfaceUserData,
    pub pending: KdeBlurSurfaceCachedState,
    pub current: KdeBlurSurfaceCachedState,
}

impl SurfaceBlur {
    /// What the blur object and its surface stand for.
    pub open spec fn session(self) -> Session {
        Session {
            area: self.data.pending_region@,
            pending: self.pending@,
            current: self.current@,
        }
    }

    /// The blur manager creates a blur object on a surface with the given state. It may not be
    /// the first on that surface.
    pub fn create(
        surface: SurfaceId,
        pending: KdeBlurSurfaceCachedState,
        current: KdeBlurSurfaceCachedState,
    ) -> (r: Self)
        ensures
            r.data.surface == surface,
            r.pending == pending,
            r.current == current,
            r.session() == Session::created(pending@, current@),
    {
        let data = match manager_request(ManagerRequest::Create { surface }) {
            Action::Init { data } => data,
            _ => KdeBlurSurfaceUserData::new(surface),
        };
        SurfaceBlur { data, pending, current }
    }

    /// Carries out an action, and says what the surface is told.
    fn perform(&mut self, action: Action) -> (r: Option<Notice>)
        ensures
            final(self).data == old(self).data,
            final(self).current == old(self).current,
            match action {
                Action::Write { surface, blur_region } => if surface == old(self).data.surface {
                    &&& final(self).pending.blur_region == blur_region
                    &&& r == Some(
                        if blur_region is Some {
                            Notice::SetBlurRegion
                        } else {
                            Notice::UnsetBlurRegion
                        },
                    )
                } else {
                    final(self).pending == old(self).pending && r is None
                },
                _ => final(self).pending == old(self).pending && r is None,
            },
    {
        match action {
            Action::Write { surface, blur_region } => {
                if surface == self.data.surface {
                    Some(self.pending.write(blur_region))
                } else {
                    None
                }
            },
            _ => None,
        }
    }

    /// A request to the blur object, and what the surface is told.
    pub fn request(&mut self, request: BlurRequest, alive: bool) -> (r: Option<Notice>)
        ensures
            final(self).data.surface == old(self).data.surface,
            final(self).session() == old(self).session().after(
                Event::Request { request: request@, alive },
            ),
            r == (if writes(request@, alive) {
                Some(Notice::SetBlurRegion)
            } else {
                None
            }),
    {
        let action = self.data.request(request, alive);
        self.perform(action)
    }

    /// The blur object is gone.
    pub fn destroyed(&mut self) -> (r: Option<Notice>)
        ensures
            *final(self) == *old(self),
            final(self).session() == old(self).session().after(Event::Destroyed),
            r is None,
    {
        let action = self.data.destroyed();
        self.perform(action)
    }

    /// The blur manager removes the blur of the surface.
    pub fn unset(&mut self) -> (r: Option<Notice>)
        ensures
            final(self).data.surface == old(self).data.surface,
            final(self).session() == old(self).session().after(Event::Unset),
            r == Some(Notice::UnsetBlurRegion),
    {
        let action = manager_request(ManagerRequest::Unset { surface: self.data.surface });
        self.perform(action)
    }

    /// The surface is committed.
    pub fn commit_surface(&mut self)
        ensures
            final(self).data.surface == old(self).data.surface,
            final(self).session() == old(self).session().after(Event::SurfaceCommit),
    {
        let cached = self.pending.commit();
        cached.merge_into(&mut self.current);
    }
}

/// The area that the last request to set a region asked for; the one chosen at the start if there
/// was none.
pub open spec fn last_area(start: BlurArea, events: Seq<Event>) -> BlurArea
    decreases events.len(),
{
    if events.len() == 0 {
        start
    } else {
        match events.last() {
            Event::Request { request: BlurRequestModel::SetRegion(region), .. } => area_for(region),
            _ => last_area(start, events.drop_last()),
        }
    }
}

/// No series of events leads to a region without rectangles.
pub proof fn regions_are_never_empty(start: Session, events: Seq<Event>)
    requires
        start.well_formed(),
    ensures
        start.after_all(events).well_formed(),
        Session::initial().well_formed(),
    decreases events.len(),
{
    if events.len() > 0 {
        regions_are_never_empty(start, events.drop_last());
    }
}

/// Nothing changes for a surface until it is committed.
pub proof fn changes_wait_for_surface_commit(session: Session, events: Seq<Event>)
    requires
        forall|i: int| 0 <= i < events.len() ==> !(#[trigger] events[i] is SurfaceCommit),
    ensures
        session.after_all(events).current == session.current,
    decreases events.len(),
{
    if events.len() > 0 {
        let rest = events.drop_last();
        assert(events[events.len() - 1] == events.last());
        assert forall|i: int| 0 <= i < rest.len() implies !(#[trigger] rest[i]
            is SurfaceCommit) by {
            assert(rest[i] == events[i]);
        }
        changes_wait_for_surface_commit(session, rest);
    }
}

/// Requests to a blur object, and its end, change nothing on its surface until the blur object is
/// committed.
pub proof fn regions_wait_for_blur_commit(session: Session, events: Seq<Event>)
    requires
        all_leave_surface(events),
    ensures
        session.after_all(events).pending == session.pending,
        session.after_all(events).current == session.current,
    decreases events.len(),
{
    if events.len() > 0 {
        let rest = events.drop_last();
        assert(events[events.len() - 1] == events.last());
        assert forall|i: int| 0 <= i < rest.len() implies (
        #[trigger] rest[i]).leaves_surface() by {
            assert(rest[i] == events[i]);
        }
        regions_wait_for_blur_commit(session, rest);
    }
}

proof fn chosen_area_is_last(start: Session, events: Seq<Event>)
    ensures
        start.after_all(events).area == last_area(start.area, events),
    decreases events.len(),
{
    if events.len() > 0 {
        chosen_area_is_last(start, events.drop_last());
    }
}

proof fn events_follow(session: Session, first: Seq<Event>, second: Seq<Event>)
    ensures
        session.after_all(first + second) == session.after_all(first).after_all(second),
    decreases second.len(),
{
    if second.len() == 0 {
        assert(first + second =~= first);
    } else {
        assert((first + second).drop_last() =~= first + second.drop_last());
        assert((first + second).last() == second.last());
        events_follow(session, first, second.drop_last());
    }
}

/// From any start, and whatever happened before, once a blur object and then its surface are
/// committed, the surface has the region that was set last before the blur object was committed.
/// What happens in between does not matter unless it writes to the surface; the blur object may
/// even be destroyed.
pub proof fn committed_region_is_read_back(
    start: Session,
    before: Seq<Event>,
    between: Seq<Event>,
)
    requires
        all_leave_surface(between),
    ensures
        ({
            let commit = Event::Request { request: BlurRequestModel::Commit, alive: true };
            let events = (before.push(commit) + between).push(Event::SurfaceCommit);
            start.after_all(events).current == Some(last_area(start.area, before))
        }),
{
    let commit = Event::Request { request: BlurRequestModel::Commit, alive: true };
    let committed = before.push(commit);
    let events = (committed + between).push(Event::SurfaceCommit);
    chosen_area_is_last(start, before);
    assert(committed.drop_last() =~= before);
    assert(start.after_all(committed).pending == Some(last_area(start.area, before)));
    regions_wait_for_blur_commit(start.after_all(committed), between);
    events_follow(start, committed, between);
    assert(events.drop_last() =~= committed + between);
}

/// Whatever happened before, once the blur of a surface is unset and the surface is committed,
/// the surface has no blur. What happens in between does not matter unless it writes to the
/// surface.
pub proof fn unset_removes_blur(session: Session, between: Seq<Event>)
    requires
        all_leave_surface(between),
    ensures
        session.after(Event::Unset).after_all(between).after(Event::SurfaceCommit).current is None,
{
    regions_wait_for_blur_commit(session.after(Event::Unset), between);
}

/// The end of a blur object changes nothing: what it wrote stays on the surface.
pub proof fn destruction_changes_nothing(session: Session)
    ensures
        session.after(Event::Destroyed) == session,
{
}

/// A commit of a blur object whose surface is gone changes nothing.
pub proof fn commit_without_surface_is_ignored(session: Session)
    ensures
        session.after(Event::Request { request: BlurRequestModel::Commit, alive: false })
            == session,
{
}

/// Committing a surface again changes nothing.
pub proof fn surface_commit_repeats(session: Session)
    ensures
        session.after(Event::SurfaceCommit).after(Event::SurfaceCommit) == session.after(
            Event::SurfaceCommit,
        ),
{
}

} // verus!
