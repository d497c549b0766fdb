use crate::event::Event;
use crate::projection::{Projection, Ratio};
use crate::scene::{quad, quad_vertices, Vertex};
use vstd::prelude::*;

verus! {

/// Whether the loop still draws.
#[derive(Clone, Copy, Debug, PartialEq, Eq, Structural)]
pub enum LoopState {
    Running,
    Terminated,
}

/// One piece of work for the host to perform on the window and the device.  No
/// command writes to the vertex buffer or the texture: the host fills both once,
/// before the first frame.
#[derive(Clone, Copy, Debug, PartialEq, Eq, Structural)]
pub enum Command {
    /// Reacquire the render-target views: the window's surface changed size.
    UpdateViews,
    /// Write the camera, with this projection, into the constant buffer.
    UploadConstants(Projection),
    /// Clear the render target to the background colour.
    Clear,
    /// Draw the vertex buffer through the pipeline, texture and sampler bound.
    Draw,
    /// Hand the recorded commands to the device.
    Submit,
    /// Show the finished frame in the window.
    Present,
    /// Let the device release what it allocated for the frame.
    Reclaim,
}

/// What the loop is, as a value: its state, the projection the camera uses, and
/// the contents of the vertex buffer.
pub struct LoopView {
    pub state: LoopState,
    pub projection: Projection,
    pub vertices: Seq<Vertex>,
}

impl LoopView {
    /// A loop that has seen no event yet.
    pub open spec fn initial() -> LoopView {
        LoopView {
            state: LoopState::Running,
            projection: Projection::initial(),
            vertices: quad(),
        }
    }

    /// The loop is well formed when its projection is: every plane has a value.
    pub open spec fn wf(self) -> bool {
        self.projection.wf()
    }

    /// The loop after one event.  A terminated loop stays as it is.  A running one
    /// terminates on a quitting event, takes the projection of a resize that has
    /// height, and lets every other event pass.
    pub open spec fn step(self, event: Event) -> LoopView {
        if self.state is Terminated {
            self
        } else if event.quits() {
            LoopView { state: LoopState::Terminated, ..self }
        } else {
            match event {
                Event::Resized(width, height) => match Projection::for_size(width, height) {
                    Some(projection) => LoopView { projection: projection, ..self },
                    None => self,
                },
                _ => self,
            }
        }
    }

    /// The work an event asks for at once: a running loop answers every resize by
    /// reacquiring the render-target views.
    pub open spec fn reaction(self, event: Event) -> Option<Command> {
        if self.state is Running && !event.quits() && event is Resized {
            Some(Command::UpdateViews)
        } else {
            None
        }
    }

    /// The loop after a batch of events, taken in arrival order.
    pub open spec fn drain(self, events: Seq<Event>) -> LoopView
        decreases events.len(),
    {
        if events.len() == 0 {
            self
        } else {
            self.drain(events.drop_last()).step(events.last())
        }
    }

    /// The work a batch of events asks for, in arrival order.
    pub open spec fn reactions(self, events: Seq<Event>) -> Seq<Command>
        decreases events.len(),
    {
        if events.len() == 0 {
            Seq::empty()
        } else {
            let earlier = self.reactions(events.drop_last());
            match self.drain(events.drop_last()).reaction(events.last()) {
                Some(command) => earlier.push(command),
                None => earlier,
            }
        }
    }

    /// The drawing part of a frame: upload the camera, clear, draw, submit, present,
    /// reclaim.  A terminated loop draws nothing.
    pub open spec fn render(self) -> Seq<Command> {
        if self.state is Running {
            seq![
                Command::UploadConstants(self.projection),
                Command::Clear,
                Command::Draw,
                Command::Submit,
                Command::Present,
                Command::Reclaim,
            ]
        } else {
            Seq::empty()
        }
    }

    /// All the work of one frame: what the events ask for, then the drawing.
    pub open spec fn frame(self, events: Seq<Event>) -> Seq<Command> {
        self.reactions(events) + self.drain(events).render()
    }
}

/// The render loop as a state machine.  The host polls the window, hands each
/// batch of events to `run_frame`, and performs the commands it gets back.
pub struct RenderLoop {
    state: LoopState,
    projection: Projection,
    vertices: Vec<Vertex>,
}

impl View for RenderLoop {
    type V = LoopView;

    closed spec fn view(&self) -> LoopView {
        LoopView { state: self.state, projection: self.projection, vertices: self.vertices@ }
    }
}

impl RenderLoop {
    #[verifier::type_invariant]
    spec fn projection_has_values(self) -> bool {
        self.projection.wf()
    }

    /// A running loop with the square projection and the quad in its vertex buffer.
    pub fn new() -> (render_loop: RenderLoop)
        ensures
            render_loop@ == LoopView::initial(),
            render_loop@.wf(),
    {
        RenderLoop {
            state: LoopState::Running,
            projection: Projection::initial(),
            vertices: quad_vertices(),
        }
    }

    pub fn state(&self) -> (state: LoopState)
        ensures
            state == self@.state,
    {
        self.state
    }

    pub fn is_running(&self) -> (running: bool)
        ensures
            running == (self@.state is Running),
    {
        match self.state {
            LoopState::Running => true,
            LoopState::Terminated => false,
        }
    }

    /// The projection the next frame will upload.  All its planes have values.
    pub fn projection(&self) -> (projection: Projection)
        ensures
            projection == self@.projection,
            projection.wf(),
    {
        proof {
            use_type_invariant(self);
        }
        self.projection
    }

    /// The contents of the vertex buffer.
    pub fn vertices(&self) -> (vertices: &Vec<Vertex>)
        ensures
            vertices@ == self@.vertices,
    {
        &self.vertices
    }

    /// Takes one event from the queue and says what the host owes it at once.
    pub fn handle_event(&mut self, event: &Event) -> (reaction: Option<Command>)
        ensures
            final(self)@ == old(self)@.step(*event),
            reaction == old(self)@.reaction(*event),
            final(self)@.vertices == old(self)@.vertices,
            final(self)@.wf(),
    {
        proof {
            use_type_invariant(&*self);
        }
        if !self.is_running() {
            return None;
        }
        if event.quits() {
            self.state = LoopState::Terminated;
            return None;
        }
        match event {
            Event::Resized(width, height) => {
                match Projection::for_size(*width, *height) {
                    Some(projection) => {
                        self.projection = projection;
                    },
                    None => {},
                }
                Some(Command::UpdateViews)
            },
            _ => None,
        }
    }

    /// The drawing commands of one frame, for the loop as it stands.
    pub fn render(&self) -> (commands: Vec<Command>)
        ensures
            commands@ == self@.render(),
    {
        let mut commands: Vec<Command> = Vec::new();
        if self.is_running() {
            commands.push(Command::UploadConstants(self.projection));
            commands.push(Command::Clear);
            commands.push(Command::Draw);
            commands.push(Command::Submit);
            commands.push(Command::Present);
            commands.push(Command::Reclaim);
        }
        assert(commands@ =~= self@.render());
        commands
    }

    /// Runs one iteration: drains the batch in arrival order, stopping at the first
    /// quitting event, and then, if the loop still runs, draws.  Returns everything
    /// the host has to perform, in order.
    pub fn run_frame(&mut self, events: &Vec<Event>) -> (commands: Vec<Command>)
        ensures
            final(self)@ == old(self)@.drain(events@),
            commands@ == old(self)@.frame(events@),
            final(self)@.vertices == old(self)@.vertices,
            final(self)@.wf(),
    {
        let ghost start = self@;
        let mut commands: Vec<Command> = Vec::new();
        let mut i: usize = 0;
        proof {
            use_type_invariant(&*self);
            assert(events@.take(0) =~= Seq::<Event>::empty());
        }
        while i < events.len() && self.is_running()
            invariant
                i <= events.len(),
                self@ == start.drain(events@.take(i as int)),
                commands@ == start.reactions(events@.take(i as int)),
                self@.wf(),
            decreases events.len() - i,
        {
            let reaction = self.handle_event(&events[i]);
            proof {
                assert(events@.take(i + 1).drop_last() =~= events@.take(i as int));
            }
            match reaction {
                Some(command) => commands.push(command),
                None => {},
            }
            i += 1;
        }
        proof {
            lemma_drain_concat(start, events@.take(i as int), events@.skip(i as int));
            assert(events@.take(i as int) + events@.skip(i as int) =~= events@);
            if i < events.len() {
                lemma_terminated_is_final(self@, events@.skip(i as int));
            } else {
                assert(events@.skip(i as int) =~= Seq::<Event>::empty());
            }
            lemma_vertices_never_change(start, events@);
        }
        let mut drawing = self.render();
        commands.append(&mut drawing);
        commands
    }
}

/// Draining two batches one after the other is draining them joined.
pub proof fn lemma_drain_concat(view: LoopView, first: Seq<Event>, second: Seq<Event>)
    ensures
        view.drain(first + second) == view.drain(first).drain(second),
        view.reactions(first + second) == view.reactions(first) + view.drain(first).reactions(
            second,
        ),
    decreases second.len(),
{
    if second.len() == 0 {
        assert(first + second =~= first);
        assert(view.reactions(first) + Seq::<Command>::empty() =~= view.reactions(first));
    } else {
        lemma_drain_concat(view, first, second.drop_last());
        assert((first + second).drop_last() =~= first + second.drop_last());
        assert((first + second).last() == second.last());
        let earlier = view.reactions(first) + view.drain(first).reactions(second.drop_last());
        match view.drain(first + second.drop_last()).reaction(second.last()) {
            Some(command) => {
                assert(earlier.push(command) =~= view.reactions(first) + view.drain(
                    first,
                ).reactions(second.drop_last()).push(command));
            },
            None => {},
        }
    }
}

/// A terminated loop is final: no batch of events changes it or asks for work,
/// and it draws no frame.
pub proof fn lemma_terminated_is_final(view: LoopView, events: Seq<Event>)
    requires
        view.state is Terminated,
    ensures
        view.drain(events) == view,
        view.reactions(events) == Seq::<Command>::empty(),
        view.frame(events) == Seq::<Command>::empty(),
    decreases events.len(),
{
    if events.len() > 0 {
        lemma_terminated_is_final(view, events.drop_last());
    }
    assert(view.reactions(events) + view.render() =~= Seq::<Command>::empty());
}

/// The vertex buffer is written once: no batch of events changes its contents.
pub proof fn lemma_vertices_never_change(view: LoopView, events: Seq<Event>)
    ensures
        view.drain(events).vertices == view.vertices,
    decreases events.len(),
{
    if events.len() > 0 {
        lemma_vertices_never_change(view, events.drop_last());
    }
}

/// A resize leaves the loop running and asks for fresh render-target views.  If
/// the new window has height, the projection's right plane moves to exactly
/// `width / height` times the top plane, the left plane mirrors it, and the other
/// planes stay; if it has none, the projection stays as it was.
pub proof fn lemma_resize_sets_projection(view: LoopView, width: u32, height: u32)
    requires
        view.state is Running,
    ensures
        view.step(Event::Resized(width, height)).state is Running,
        view.step(Event::Resized(width, height)).vertices == view.vertices,
        view.reaction(Event::Resized(width, height)) == Some(Command::UpdateViews),
        height > 0 ==> ({
            let p = view.step(Event::Resized(width, height)).projection;
            &&& p == Projection::with_aspect(width, height)
            &&& p.wf()
            &&& p.right.is_product(Ratio { num: width as i64, den: height }, p.top)
            &&& p.left == p.right.negated()
        }),
        height == 0 ==> view.step(Event::Resized(width, height)).projection == view.projection,
{
    if height > 0 {
        crate::projection::lemma_resize_scales_horizontal_bound(width, height);
    }
}

/// A running loop is terminated by a batch exactly when the batch holds a close
/// request or a press of escape.
pub proof fn lemma_terminates_iff_quit_event(view: LoopView, events: Seq<Event>)
    requires
        view.state is Running,
    ensures
        view.drain(events).state is Terminated <==> exists|i: int|
            0 <= i < events.len() && (#[trigger] events[i]).quits(),
    decreases events.len(),
{
    if events.len() > 0 {
        let earlier = events.drop_last();
        let last = events.len() - 1;
        lemma_terminates_iff_quit_event(view, earlier);
        if exists|i: int| 0 <= i < earlier.len() && (#[trigger] earlier[i]).quits() {
            let i = choose|i: int| 0 <= i < earlier.len() && (#[trigger] earlier[i]).quits();
            assert(events[i] == earlier[i]);
        } else if events[last].quits() {
        } else {
            assert forall|i: int| 0 <= i < events.len() implies !(#[trigger] events[i]).quits() by {
                if i < last {
                    assert(events[i] == earlier[i]);
                }
            }
        }
    }
}

/// Every plane of the projection keeps a value through any batch of events: no
/// resize, not even one to a window without height, leaves a zero denominator.
pub proof fn lemma_projection_keeps_values(view: LoopView, events: Seq<Event>)
    requires
        view.wf(),
    ensures
        view.drain(events).wf(),
    decreases events.len(),
{
    if events.len() > 0 {
        lemma_projection_keeps_values(view, events.drop_last());
    }
}

/// While the loop runs, its projection is the one computed for the latest resize
/// to a window with height.
pub proof fn lemma_projection_follows_latest_resize(
    view: LoopView,
    events: Seq<Event>,
    latest: int,
    width: u32,
    height: u32,
)
    requires
        view.drain(events).state is Running,
        0 <= latest < events.len(),
        events[latest] == Event::Resized(width, height),
        height > 0,
        forall|k: int|
            latest < k < events.len() ==> !(#[trigger] events[k] matches Event::Resized(_, h)
                && h > 0),
    ensures
        view.drain(events).projection == Projection::with_aspect(width, height),
    decreases events.len(),
{
    let earlier = events.drop_last();
    let last = events.len() - 1;
    assert(view.drain(earlier).state is Running);
    if latest < last {
        assert(events[latest] == earlier[latest]);
        assert forall|k: int| latest < k < earlier.len() implies !(#[trigger] earlier[k] matches Event::Resized(
            _,
            h,
        ) && h > 0) by {
            assert(earlier[k] == events[k]);
        }
        lemma_projection_follows_latest_resize(view, earlier, latest, width, height);
        assert(!(events[last] matches Event::Resized(_, h) && h > 0));
    }
}

/// Without a resize to a window with height, a batch leaves the projection alone.
pub proof fn lemma_projection_kept_without_resize(view: LoopView, events: Seq<Event>)
    requires
        forall|k: int|
            0 <= k < events.len() ==> !(#[trigger] events[k] matches Event::Resized(_, h) && h
                > 0),
    ensures
        view.drain(events).projection == view.projection,
    decreases events.len(),
{
    if events.len() > 0 {
        let earlier = events.drop_last();
        let last = events.len() - 1;
        assert forall|k: int| 0 <= k < earlier.len() implies !(#[trigger] earlier[k] matches Event::Resized(
            _,
            h,
        ) && h > 0) by {
            assert(earlier[k] == events[k]);
        }
        lemma_projection_kept_without_resize(view, earlier);
        assert(!(events[last] matches Event::Resized(_, h) && h > 0));
    }
}

/// Events ask for nothing but fresh render-target views.
pub proof fn lemma_reactions_update_views(view: LoopView, events: Seq<Event>)
    ensures
        view.reactions(events).len() <= events.len(),
        forall|k: int|
            0 <= k < view.reactions(events).len() ==> #[trigger] view.reactions(events)[k]
                == Command::UpdateViews,
    decreases events.len(),
{
    if events.len() > 0 {
        lemma_reactions_update_views(view, events.drop_last());
    }
}

/// What the constant buffer holds once the host has performed `commands`, if it
/// held `before` when it began.
pub open spec fn constants_after(commands: Seq<Command>, before: Option<Projection>) -> Option<
    Projection,
>
    decreases commands.len(),
{
    if commands.len() == 0 {
        before
    } else {
        match commands.last() {
            Command::UploadConstants(projection) => Some(projection),
            _ => constants_after(commands.drop_last(), before),
        }
    }
}

/// Whatever the constant buffer held before the frame, at each draw it holds the
/// projection the frame's events left behind: the upload follows the last resize
/// and comes before the draw.
pub proof fn lemma_draw_sees_current_projection(
    view: LoopView,
    events: Seq<Event>,
    before: Option<Projection>,
    at: int,
)
    requires
        0 <= at < view.frame(events).len(),
        view.frame(events)[at] is Draw,
    ensures
        view.drain(events).state is Running,
        constants_after(view.frame(events).take(at), before) == Some(
            view.drain(events).projection,
        ),
{
    let reactions = view.reactions(events);
    let frame = view.frame(events);
    let projection = view.drain(events).projection;
    lemma_reactions_update_views(view, events);
    if at < reactions.len() {
        assert(frame[at] == reactions[at]);
    }
    assert(view.drain(events).state is Running);
    assert(at == reactions.len() + 2);
    let upto = frame.take(at);
    assert(upto.last() == Command::Clear);
    assert(upto.drop_last().last() == Command::UploadConstants(projection));
    assert(constants_after(upto.drop_last(), before) == Some(projection));
    assert(constants_after(upto, before) == constants_after(upto.drop_last(), before));
}

/// Drawing does not wait for events: whatever the batch holds, a frame that leaves
/// the loop running clears once, then draws once, then presents once.
pub proof fn lemma_running_frame_draws_once(view: LoopView, events: Seq<Event>)
    requires
        view.drain(events).state is Running,
    ensures
        view.frame(events).len() == view.reactions(events).len() + 6,
        forall|k: int|
            0 <= k < view.frame(events).len() ==> (#[trigger] view.frame(events)[k] is Clear <==> k
                == view.reactions(events).len() + 1),
        forall|k: int|
            0 <= k < view.frame(events).len() ==> (#[trigger] view.frame(events)[k] is Draw <==> k
                == view.reactions(events).len() + 2),
        forall|k: int|
            0 <= k < view.frame(events).len() ==> (#[trigger] view.frame(events)[k] is Present
                <==> k == view.reactions(events).len() + 4),
{
    lemma_reactions_update_views(view, events);
    let reactions = view.reactions(events);
    let frame = view.frame(events);
    assert forall|k: int| 0 <= k < frame.len() implies (#[trigger] frame[k] is Clear <==> k
        == reactions.len() + 1) by {
        if k < reactions.len() {
            assert(frame[k] == reactions[k]);
        }
    }
    assert forall|k: int| 0 <= k < frame.len() implies (#[trigger] frame[k] is Draw <==> k
        == reactions.len() + 2) by {
        if k < reactions.len() {
            assert(frame[k] == reactions[k]);
        }
    }
    assert forall|k: int| 0 <= k < frame.len() implies (#[trigger] frame[k] is Present <==> k
        == reactions.len() + 4) by {
        if k < reactions.len() {
            assert(frame[k] == reactions[k]);
        }
    }
}

/// A frame in which the loop terminates draws and presents nothing.
pub proof fn lemma_terminating_frame_draws_nothing(view: LoopView, events: Seq<Event>)
    requires
        view.drain(events).state is Terminated,
    ensures
        view.frame(events) == view.reactions(events),
        forall|k: int|
            0 <= k < view.frame(events).len() ==> #[trigger] view.frame(events)[k]
                == Command::UpdateViews,
{
    lemma_reactions_update_views(view, events);
    assert(view.frame(events) =~= view.reactions(events));
}

} // verus!
