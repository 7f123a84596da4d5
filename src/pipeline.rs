//! The pipeline orchestrator: resize, then render, over one hardware session.
//!
//! Each operation (`init`, `render_image`, `deinit`) is a fixed plan of hardware
//! commands. The pipeline hands out one command at a time; whoever drives the
//! hardware performs it and answers with a `Reply` through `resume`, which
//! decides whether the plan goes on, stops with an error, or is complete.

use crate::component::{
    Command, Component, CreateFlags, Direction, Event, OnFailure, PortCommand, PortDomain, State, Step,
    Unit, TEARDOWN_TIMEOUT,
};
use crate::error::{Operation, PipelineError};
use crate::geometry::{rect_inputs_ok, rect_of, ContentMode, DisplayRect};
use crate::picture::{padded_len, DisplayImage};
use vstd::prelude::*;

verus! {

/// The operation a pipeline is carrying out.
#[derive(Debug, Clone, Copy, PartialEq, Eq, Structural)]
pub enum Task {
    Idle,
    Init,
    Render,
    Deinit,
}

/// The hardware layer's answer to a command: its status (zero is success)
/// and, for a port query, the port count and the number of the first port.
#[derive(Debug, Clone, Copy, PartialEq, Eq, Structural)]
pub struct Reply {
    pub status: i32,
    pub ports: u32,
    pub first_port: u32,
}

/// What the pipeline asks for next.
#[derive(Debug, Clone, Copy, PartialEq, Eq)]
pub enum Next {
    /// Perform this command and answer with `resume`.
    Run(Command),
    /// The operation is over, with this outcome.
    Done(Result<(), PipelineError>),
}

/// The abstract state of a pipeline.
pub struct PipelineView {
    pub viewport: (u32, u32),
    pub render: Component,
    pub resize: Component,
    /// Both units are created and their ports numbered.
    pub ready: bool,
    /// An image buffer is registered with the resize unit.
    pub buffer_registered: bool,
    pub task: Task,
    pub plan: Seq<Step>,
    /// The step of `plan` whose reply is awaited.
    pub pos: int,
}

/// The pipeline: a render unit fed by a resize unit, drawing into a viewport.
pub struct Pipeline {
    viewport: (u32, u32),
    render: Component,
    resize: Component,
    ready: bool,
    buffer_registered: bool,
    task: Task,
    plan: Vec<Step>,
    pos: usize,
}

impl View for Pipeline {
    type V = PipelineView;

    closed spec fn view(&self) -> PipelineView {
        PipelineView {
            viewport: self.viewport,
            render: self.render,
            resize: self.resize,
            ready: self.ready,
            buffer_registered: self.buffer_registered,
            task: self.task,
            plan: self.plan@,
            pos: self.pos as int,
        }
    }
}

/// The render unit takes buffers on its input port only.
pub open spec fn render_flags() -> CreateFlags {
    CreateFlags { disable_all_ports: true, enable_input_buffers: true, enable_output_buffers: false }
}

/// The resize unit takes buffers on both ports.
pub open spec fn resize_flags() -> CreateFlags {
    CreateFlags { disable_all_ports: true, enable_input_buffers: true, enable_output_buffers: true }
}

/// A unit that does not exist yet.
pub open spec fn fresh(unit: Unit) -> Component {
    Component { unit, created: false, in_port: 0, out_port: 0, state: State::Loaded }
}

pub open spec fn mark_step(filled: u32) -> Step {
    Step { command: Command::MarkEndOfStream { filled }, on_failure: OnFailure::Ignore }
}

/// Linking resize output to render input. A failure is passed over: some
/// hardware revisions report one although the link works.
pub open spec fn tunnel_step(from: Component, to: Component) -> Step {
    Step {
        command: Command::SetupTunnel { from: from.unit, out_port: from.out_port, to: to.unit, in_port: to.in_port },
        on_failure: OnFailure::Ignore,
    }
}

pub open spec fn release_step() -> Step {
    Step { command: Command::ReleaseUnits, on_failure: OnFailure::Ignore }
}

/// Creating both units and checking their port counts: one for render, two
/// for resize.
pub open spec fn init_script() -> Seq<Step> {
    seq![
        fresh(Unit::Render).create_step(render_flags()),
        fresh(Unit::Render).query_ports_step(PortDomain::Video, 1),
        fresh(Unit::Resize).create_step(resize_flags()),
        fresh(Unit::Resize).query_ports_step(PortDomain::Image, 2),
    ]
}

/// Showing an image of `size` whose padded buffer has `len` bytes, placed at
/// `rect`, waiting at most `timeout` milliseconds for each event. A buffer
/// that an earlier, failed render left registered is released first.
pub open spec fn render_script(
    v: PipelineView,
    size: (u32, u32),
    len: u32,
    rect: DisplayRect,
    timeout: i32,
) -> Seq<Step> {
    let rs = v.resize;
    let rn = v.render;
    let release_buffer = if v.buffer_registered {
        seq![rs.free_buffer_step(false)]
    } else {
        Seq::empty()
    };
    release_buffer + seq![
        rs.state_step(State::Idle),
        rn.state_step(State::Idle),
        rs.command_step(PortCommand::Disable, Direction::In),
        rs.command_step(PortCommand::Disable, Direction::Out),
        rn.command_step(PortCommand::Disable, Direction::In),
        rs.state_step(State::Idle),
        rs.read_definition_step(Direction::In),
        rs.write_definition_step(Direction::In, size.0, size.1, len),
        rs.command_step(PortCommand::Enable, Direction::In),
        rs.use_buffer_step(len),
        rs.state_step(State::Executing),
        mark_step(len),
        rn.display_region_step(Direction::In, Some(rect)),
        rs.empty_buffer_step(),
        rs.wait_step(Event::PortSettingsChanged, Direction::Out, timeout, true),
        rn.state_step(State::Idle),
        rn.state_step(State::Executing),
        rs.read_definition_step(Direction::Out),
        rs.write_definition_step(Direction::Out, v.viewport.0, v.viewport.1, 0),
        rn.read_definition_step(Direction::In),
        rn.write_definition_step(Direction::In, v.viewport.0, v.viewport.1, 0),
        tunnel_step(rs, rn),
        rs.command_step(PortCommand::Enable, Direction::Out),
        rn.command_step(PortCommand::Enable, Direction::In),
        rn.wait_step(Event::EndOfStream, Direction::In, timeout, false),
        rs.free_buffer_step(true),
    ]
}

/// Tearing both units down: release a registered buffer, disable and flush
/// the ports, step both units back to `Loaded`, and release them.
pub open spec fn deinit_script(v: PipelineView) -> Seq<Step> {
    let rs = v.resize;
    let rn = v.render;
    let release_buffer = if v.buffer_registered {
        seq![rs.free_buffer_step(false)]
    } else {
        Seq::empty()
    };
    release_buffer + seq![
        rs.command_step(PortCommand::Disable, Direction::In),
        rs.wait_step(Event::PortDisabled, Direction::In, TEARDOWN_TIMEOUT, false),
        rs.command_step(PortCommand::Flush, Direction::Out),
        rn.command_step(PortCommand::Flush, Direction::In),
        rs.wait_step(Event::Flushed, Direction::Out, TEARDOWN_TIMEOUT, false),
        rn.wait_step(Event::Flushed, Direction::In, TEARDOWN_TIMEOUT, false),
        rs.command_step(PortCommand::Disable, Direction::Out),
        rn.command_step(PortCommand::Disable, Direction::In),
        rs.state_step(State::Idle),
        rs.state_step(State::Loaded),
        rn.state_step(State::Idle),
        rn.state_step(State::Loaded),
        release_step(),
    ]
}

/// The rectangle an image of `size` gets in the viewport under `mode`.
pub open spec fn display_rect(mode: ContentMode, viewport: (u32, u32), size: (u32, u32)) -> DisplayRect {
    let r = rect_of(mode, viewport, size);
    DisplayRect { x: r.0 as i16, y: r.1 as i16, w: r.2 as i16, h: r.3 as i16 }
}

/// A port query succeeded with the expected count, and every port number fits.
pub open spec fn ports_fit(expected: u32, reply: Reply) -> bool {
    &&& reply.ports == expected
    &&& reply.first_port as int + expected as int <= u32::MAX as int + 1
}

/// The error that stops the plan at `step` on `reply`, if any: a non-zero
/// status of a step that is not best effort, or a port count other than the
/// expected one.
pub open spec fn step_error(step: Step, reply: Reply) -> Option<PipelineError> {
    if reply.status != 0 {
        match step.on_failure {
            OnFailure::Ignore => None,
            OnFailure::Client(op) => Some(PipelineError::ILClientError(op, reply.status)),
            OnFailure::Core(op) => Some(PipelineError::OMXError(op, reply.status)),
        }
    } else {
        match step.command {
            Command::QueryPorts { expected, .. } => if ports_fit(expected, reply) {
                None
            } else {
                Some(PipelineError::Assertion(Operation::InvalidNumberOfPorts))
            },
            _ => None,
        }
    }
}

pub open spec fn unit_of(v: PipelineView, unit: Unit) -> Component {
    match unit {
        Unit::Render => v.render,
        Unit::Resize => v.resize,
    }
}

pub open spec fn with_unit(v: PipelineView, unit: Unit, c: Component) -> PipelineView {
    match unit {
        Unit::Render => PipelineView { render: c, ..v },
        Unit::Resize => PipelineView { resize: c, ..v },
    }
}

/// Ports numbered from `first`: the input port, then the output port if the
/// unit has two.
pub open spec fn numbered(c: Component, expected: u32, first: u32) -> Component {
    Component { in_port: first, out_port: if expected >= 2 { (first + 1) as u32 } else { 0 }, ..c }
}

/// What a command that the plan goes on from changes in what the pipeline knows.
pub open spec fn effect(v: PipelineView, command: Command, reply: Reply) -> PipelineView {
    match command {
        Command::CreateUnit { unit, .. } => if reply.status == 0 {
            with_unit(v, unit, Component { created: true, ..unit_of(v, unit) })
        } else {
            v
        },
        Command::QueryPorts { unit, expected, .. } => if reply.status == 0 {
            with_unit(v, unit, numbered(unit_of(v, unit), expected, reply.first_port))
        } else {
            v
        },
        Command::UseBuffer { .. } => if reply.status == 0 {
            PipelineView { buffer_registered: true, ..v }
        } else {
            v
        },
        Command::FreeBuffer { .. } => if reply.status == 0 {
            PipelineView { buffer_registered: false, ..v }
        } else {
            v
        },
        Command::ChangeState { unit, state } => with_unit(v, unit, Component { state, ..unit_of(v, unit) }),
        Command::ReleaseUnits => PipelineView {
            render: Component { created: false, ..v.render },
            resize: Component { created: false, ..v.resize },
            ready: false,
            buffer_registered: false,
            ..v
        },
        _ => v,
    }
}

/// One step of the machine: the state after `reply` to the awaited step, and
/// what to do next.
pub open spec fn transition(v: PipelineView, reply: Reply) -> (PipelineView, Next) {
    let step = v.plan[v.pos];
    match step_error(step, reply) {
        Some(e) => (PipelineView { task: Task::Idle, ..v }, Next::Done(Err(e))),
        None => {
            let w = effect(v, step.command, reply);
            if v.pos + 1 < v.plan.len() {
                (PipelineView { pos: v.pos + 1, ..w }, Next::Run(v.plan[v.pos + 1].command))
            } else {
                (
                    PipelineView { task: Task::Idle, ready: w.ready || v.task == Task::Init, ..w },
                    Next::Done(Ok(())),
                )
            }
        },
    }
}

/// Starts a plan.
pub open spec fn begin(v: PipelineView, task: Task, plan: Seq<Step>) -> (PipelineView, Next) {
    (PipelineView { task, plan, pos: 0, ..v }, Next::Run(plan[0].command))
}

/// `init`: nothing to do once the units are set up.
pub open spec fn begin_init(v: PipelineView) -> (PipelineView, Next) {
    if v.ready {
        (v, Next::Done(Ok(())))
    } else {
        begin(v, Task::Init, init_script())
    }
}

/// `render_image`: refused until the units are set up.
pub open spec fn begin_render(
    v: PipelineView,
    size: (u32, u32),
    len: u32,
    rect: DisplayRect,
    timeout: i32,
) -> (PipelineView, Next) {
    if !v.ready {
        (v, Next::Done(Err(PipelineError::Assertion(Operation::NotInitialized))))
    } else {
        begin(v, Task::Render, render_script(v, size, len, rect, timeout))
    }
}

/// `deinit`: nothing to do unless both units exist.
pub open spec fn begin_deinit(v: PipelineView) -> (PipelineView, Next) {
    if !(v.render.created && v.resize.created) {
        (v, Next::Done(Ok(())))
    } else {
        begin(v, Task::Deinit, deinit_script(v))
    }
}

impl PipelineView {
    /// The invariant of a pipeline: the units keep their kinds; a running
    /// plan has a step awaiting its reply; set-up units exist; an `init`
    /// plan has created each unit before the steps that follow it; and each
    /// unit was last asked for `Loaded`, `Idle` or `Executing`, from which
    /// the rest of a running plan moves it one step at a time.
    pub open spec fn wf(self) -> bool {
        &&& self.render.unit == Unit::Render
        &&& self.resize.unit == Unit::Resize
        &&& self.task != Task::Idle ==> 0 <= self.pos < self.plan.len()
        &&& self.ready ==> self.render.created && self.resize.created
        &&& self.task == Task::Init ==> {
            &&& !self.ready
            &&& self.plan == init_script()
            &&& self.pos > 0 ==> self.render.created
            &&& self.pos > 2 ==> self.resize.created
        }
        &&& self.task == Task::Deinit ==> self.plan.len() > 0 && self.plan.last() == release_step()
        &&& settled(self.render.state)
        &&& settled(self.resize.state)
        &&& self.task != Task::Idle ==> orderly_from(self.plan, self.pos, self.render.state, self.resize.state)
    }
}

impl Pipeline {
    pub open spec fn wf(&self) -> bool {
        self@.wf()
    }

    /// A pipeline for a viewport of `width` by `height` pixels, with no
    /// units yet.
    pub fn new(width: u32, height: u32) -> (r: Self)
        ensures
            r.wf(),
            r@.viewport == (width, height),
            r@.render == fresh(Unit::Render),
            r@.resize == fresh(Unit::Resize),
            !r@.ready,
            !r@.buffer_registered,
            r@.task == Task::Idle,
    {
        Pipeline {
            viewport: (width, height),
            render: Component::new(Unit::Render),
            resize: Component::new(Unit::Resize),
            ready: false,
            buffer_registered: false,
            task: Task::Idle,
            plan: Vec::new(),
            pos: 0,
        }
    }

    /// The viewport size in pixels.
    pub fn viewport(&self) -> (r: (u32, u32))
        ensures
            r == self@.viewport,
    {
        self.viewport
    }

    /// Both units are created and their ports numbered.
    pub fn is_ready(&self) -> (r: bool)
        ensures
            r == self@.ready,
    {
        self.ready
    }

    /// An operation is under way and awaits a reply.
    pub fn is_busy(&self) -> (r: bool)
        ensures
            r == (self@.task != Task::Idle),
    {
        match self.task {
            Task::Idle => false,
            _ => true,
        }
    }

    /// An image buffer is registered with the resize unit: the memory of the
    /// image last rendered must stay valid while this holds.
    pub fn buffer_registered(&self) -> (r: bool)
        ensures
            r == self@.buffer_registered,
    {
        self.buffer_registered
    }

    fn start(&mut self, task: Task, plan: Vec<Step>) -> (r: Next)
        requires
            plan@.len() > 0,
        ensures
            (final(self)@, r) == begin(old(self)@, task, plan@),
    {
        let first = plan[0].command;
        self.task = task;
        self.plan = plan;
        self.pos = 0;
        Next::Run(first)
    }

    /// Starts creating the two units and numbering their ports.
    pub fn init(&mut self) -> (r: Next)
        requires
            old(self).wf(),
            old(self)@.task == Task::Idle,
        ensures
            final(self).wf(),
            (final(self)@, r) == begin_init(old(self)@),
            one_step_issued(final(self)@, r),
    {
        if self.ready {
            return Next::Done(Ok(()));
        }
        let mut plan: Vec<Step> = Vec::new();
        let render_flags = CreateFlags {
            disable_all_ports: true,
            enable_input_buffers: true,
            enable_output_buffers: false,
        };
        let resize_flags = CreateFlags {
            disable_all_ports: true,
            enable_input_buffers: true,
            enable_output_buffers: true,
        };
        self.render.create(&mut plan, render_flags);
        self.render.get_parameter(&mut plan, PortDomain::Video, 1);
        self.resize.create(&mut plan, resize_flags);
        self.resize.get_parameter(&mut plan, PortDomain::Image, 2);
        proof {
            assert(plan@ =~= init_script());
            lemma_init_steps_states(self@.render.state, self@.resize.state);
        }
        self.start(Task::Init, plan)
    }

    /// Plans putting both units in `Idle` with every port disabled, from a
    /// fresh state or from an earlier render alike.
    fn setup(&self, plan: &mut Vec<Step>)
        ensures
            final(plan)@ == old(plan)@ + seq![
                self@.resize.state_step(State::Idle),
                self@.render.state_step(State::Idle),
                self@.resize.command_step(PortCommand::Disable, Direction::In),
                self@.resize.command_step(PortCommand::Disable, Direction::Out),
                self@.render.command_step(PortCommand::Disable, Direction::In),
            ],
    {
        self.resize.set_state(plan, State::Idle);
        self.render.set_state(plan, State::Idle);
        self.resize.disable_port(plan, Direction::In);
        self.resize.disable_port(plan, Direction::Out);
        self.render.disable_port(plan, Direction::In);
        proof {
            assert(final(plan)@ =~= old(plan)@ + seq![
                self@.resize.state_step(State::Idle),
                self@.render.state_step(State::Idle),
                self@.resize.command_step(PortCommand::Disable, Direction::In),
                self@.resize.command_step(PortCommand::Disable, Direction::Out),
                self@.render.command_step(PortCommand::Disable, Direction::In),
            ]);
        }
    }

    /// Plans configuring the resize input for `image`, registering its buffer
    /// and marking it as the end of the stream.
    pub fn prepare_image(&self, plan: &mut Vec<Step>, image: &DisplayImage)
        requires
            image.wf(),
        ensures
            final(plan)@ == old(plan)@ + seq![
                self@.resize.state_step(State::Idle),
                self@.resize.read_definition_step(Direction::In),
                self@.resize.write_definition_step(
                    Direction::In,
                    image.spec_width(),
                    image.spec_height(),
                    padded_len(image.spec_width() as int, image.spec_height() as int) as u32,
                ),
                self@.resize.command_step(PortCommand::Enable, Direction::In),
                self@.resize.use_buffer_step(
                    padded_len(image.spec_width() as int, image.spec_height() as int) as u32,
                ),
                self@.resize.state_step(State::Executing),
                mark_step(padded_len(image.spec_width() as int, image.spec_height() as int) as u32),
            ],
    {
        let len = image.len();
        self.resize.set_state(plan, State::Idle);
        self.resize.set_image_size(plan, Direction::In, image.width(), image.height(), Some(len));
        self.resize.enable_port(plan, Direction::In);
        self.resize.use_buffer(plan, len);
        self.resize.set_state(plan, State::Executing);
        plan.push(Step { command: Command::MarkEndOfStream { filled: len }, on_failure: OnFailure::Ignore });
        proof {
            let l = padded_len(image.spec_width() as int, image.spec_height() as int) as u32;
            assert(final(plan)@ =~= old(plan)@ + seq![
                self@.resize.state_step(State::Idle),
                self@.resize.read_definition_step(Direction::In),
                self@.resize.write_definition_step(
                    Direction::In,
                    image.spec_width(),
                    image.spec_height(),
                    l,
                ),
                self@.resize.command_step(PortCommand::Enable, Direction::In),
                self@.resize.use_buffer_step(l),
                self@.resize.state_step(State::Executing),
                mark_step(l),
            ]);
        }
    }

    /// Plans placing the render unit's input at `display_rect` (`None`: full
    /// screen).
    pub fn set_image_config(&self, plan: &mut Vec<Step>, display_rect: Option<DisplayRect>)
        ensures
            final(plan)@ == old(plan)@.push(self@.render.display_region_step(Direction::In, display_rect)),
    {
        self.render.set_display_region(plan, Direction::In, display_rect)
    }

    /// Plans placing an image of `image`'s size under `content_mode`.
    pub fn set_image_scale(&self, plan: &mut Vec<Step>, content_mode: ContentMode, image: &DisplayImage)
        requires
            rect_inputs_ok(content_mode, self@.viewport, image.size_spec()),
        ensures
            final(plan)@ == old(plan)@.push(
                self@.render.display_region_step(
                    Direction::In,
                    Some(display_rect(content_mode, self@.viewport, image.size_spec())),
                ),
            ),
    {
        let rect = DisplayRect::new_with_mode(content_mode, self.viewport, image.size());
        proof {
            assert(rect == display_rect(content_mode, self@.viewport, image.size_spec()));
        }
        self.set_image_config(plan, Some(rect))
    }

    /// Starts showing `image` under `content_mode`, waiting at most `timeout`
    /// milliseconds for each hardware event. Refused with `NotInitialized`
    /// until `init` has completed.
    pub fn render_image(&mut self, image: &DisplayImage, content_mode: ContentMode, timeout: i32) -> (r: Next)
        requires
            old(self).wf(),
            old(self)@.task == Task::Idle,
            image.wf(),
            rect_inputs_ok(content_mode, old(self)@.viewport, image.size_spec()),
            timeout > 0,
        ensures
            final(self).wf(),
            one_step_issued(final(self)@, r),
            (final(self)@, r) == begin_render(
                old(self)@,
                image.size_spec(),
                padded_len(image.spec_width() as int, image.spec_height() as int) as u32,
                display_rect(content_mode, old(self)@.viewport, image.size_spec()),
                timeout,
            ),
    {
        if !self.ready {
            return Next::Done(Err(PipelineError::Assertion(Operation::NotInitialized)));
        }
        let mut plan: Vec<Step> = Vec::new();
        if self.buffer_registered {
            self.resize.free_buffer(&mut plan, false);
        }
        self.setup(&mut plan);
        self.prepare_image(&mut plan, image);
        self.set_image_scale(&mut plan, content_mode, image);
        self.resize.empty_this_buffer(&mut plan);
        self.resize.wait_for_event(&mut plan, Event::PortSettingsChanged, Direction::Out, timeout, true);
        self.render.set_state(&mut plan, State::Idle);
        self.render.set_state(&mut plan, State::Executing);
        let (width, height) = self.viewport;
        self.resize.set_image_size(&mut plan, Direction::Out, width, height, None);
        self.render.set_image_size(&mut plan, Direction::In, width, height, None);
        plan.push(
            Step {
                command: Command::SetupTunnel {
                    from: self.resize.unit,
                    out_port: self.resize.out_port,
                    to: self.render.unit,
                    in_port: self.render.in_port,
                },
                on_failure: OnFailure::Ignore,
            },
        );
        self.resize.enable_port(&mut plan, Direction::Out);
        self.render.enable_port(&mut plan, Direction::In);
        self.render.wait_for_event(&mut plan, Event::EndOfStream, Direction::In, timeout, false);
        self.cleanup_image(&mut plan);
        proof {
            let len = padded_len(image.spec_width() as int, image.spec_height() as int) as u32;
            let rect = display_rect(content_mode, self@.viewport, image.size_spec());
            assert(plan@ =~= render_script(self@, image.size_spec(), len, rect, timeout));
            lemma_render_steps_states(self@, image.size_spec(), len, rect, timeout);
        }
        self.start(Task::Render, plan)
    }

    /// Plans releasing the image buffer at the end of a render.
    fn cleanup_image(&self, plan: &mut Vec<Step>)
        ensures
            final(plan)@ == old(plan)@.push(self@.resize.free_buffer_step(true)),
    {
        self.resize.free_buffer(plan, true)
    }

    /// Starts tearing both units down. Does nothing unless both exist, so it
    /// can be called again after it completed, or after a failed `init`.
    pub fn deinit(&mut self) -> (r: Next)
        requires
            old(self).wf(),
            old(self)@.task == Task::Idle,
        ensures
            final(self).wf(),
            (final(self)@, r) == begin_deinit(old(self)@),
            one_step_issued(final(self)@, r),
    {
        if !(self.render.created && self.resize.created) {
            return Next::Done(Ok(()));
        }
        let mut plan: Vec<Step> = Vec::new();
        if self.buffer_registered {
            self.resize.free_buffer(&mut plan, false);
        }
        let ghost prefix = plan@;
        self.resize.disable_port(&mut plan, Direction::In);
        self.resize.wait_for_event(&mut plan, Event::PortDisabled, Direction::In, TEARDOWN_TIMEOUT, false);
        self.resize.send_command(&mut plan, PortCommand::Flush, Direction::Out);
        self.render.send_command(&mut plan, PortCommand::Flush, Direction::In);
        self.resize.wait_for_event(&mut plan, Event::Flushed, Direction::Out, TEARDOWN_TIMEOUT, false);
        self.render.wait_for_event(&mut plan, Event::Flushed, Direction::In, TEARDOWN_TIMEOUT, false);
        self.resize.disable_port(&mut plan, Direction::Out);
        self.render.disable_port(&mut plan, Direction::In);
        self.resize.set_state(&mut plan, State::Idle);
        self.resize.set_state(&mut plan, State::Loaded);
        self.render.set_state(&mut plan, State::Idle);
        self.render.set_state(&mut plan, State::Loaded);
        plan.push(Step { command: Command::ReleaseUnits, on_failure: OnFailure::Ignore });
        proof {
            assert(plan@ =~= deinit_script(self@));
            lemma_deinit_steps_states(self@);
        }
        self.start(Task::Deinit, plan)
    }

    /// Applies what the awaited step's success changes.
    fn apply(&mut self, command: Command, reply: Reply)
        requires
            old(self).wf(),
            reply.status == 0 ==> match command {
                Command::QueryPorts { expected, .. } => ports_fit(expected, reply),
                _ => true,
            },
        ensures
            final(self)@ == effect(old(self)@, command, reply),
    {
        match command {
            Command::CreateUnit { unit, .. } => {
                if reply.status == 0 {
                    match unit {
                        Unit::Render => self.render.created = true,
                        Unit::Resize => self.resize.created = true,
                    }
                }
            },
            Command::QueryPorts { unit, expected, .. } => {
                if reply.status == 0 {
                    let first = reply.first_port;
                    let out = if expected >= 2 {
                        first + 1
                    } else {
                        0
                    };
                    match unit {
                        Unit::Render => {
                            self.render.in_port = first;
                            self.render.out_port = out;
                        },
                        Unit::Resize => {
                            self.resize.in_port = first;
                            self.resize.out_port = out;
                        },
                    }
                }
            },
            Command::UseBuffer { .. } => {
                if reply.status == 0 {
                    self.buffer_registered = true;
                }
            },
            Command::FreeBuffer { .. } => {
                if reply.status == 0 {
                    self.buffer_registered = false;
                }
            },
            Command::ChangeState { unit, state } => match unit {
                Unit::Render => self.render.state = state,
                Unit::Resize => self.resize.state = state,
            },
            Command::ReleaseUnits => {
                self.render.created = false;
                self.resize.created = false;
                self.ready = false;
                self.buffer_registered = false;
            },
            _ => {},
        }
    }

    /// Takes the reply to the awaited command and says what comes next.
    pub fn resume(&mut self, reply: Reply) -> (r: Next)
        requires
            old(self).wf(),
            old(self)@.task != Task::Idle,
        ensures
            final(self).wf(),
            (final(self)@, r) == transition(old(self)@, reply),
            one_step_issued(final(self)@, r),
    {
        let step = self.plan[self.pos];
        let error = step_failure(step, reply);
        match error {
            Some(e) => {
                self.task = Task::Idle;
                return Next::Done(Err(e));
            },
            None => {},
        }
        let ghost before = self@;
        self.apply(step.command, reply);
        proof {
            assert(self@.pos == before.pos && self@.plan == before.plan);
            reveal_with_fuel(orderly_from, 2);
        }
        let n = self.plan.len();
        if self.pos + 1 < n {
            self.pos = self.pos + 1;
            Next::Run(self.plan[self.pos].command)
        } else {
            if self.task == Task::Init {
                self.ready = true;
            }
            self.task = Task::Idle;
            Next::Done(Ok(()))
        }
    }
}

/// Decides whether `reply` stops the plan at `step`, and with which error.
fn step_failure(step: Step, reply: Reply) -> (r: Option<PipelineError>)
    ensures
        r == step_error(step, reply),
{
    if reply.status != 0 {
        match step.on_failure {
            OnFailure::Ignore => None,
            OnFailure::Client(op) => Some(PipelineError::ILClientError(op, reply.status)),
            OnFailure::Core(op) => Some(PipelineError::OMXError(op, reply.status)),
        }
    } else {
        match step.command {
            Command::QueryPorts { expected, .. } => {
                if reply.ports == expected && reply.first_port as u64 + expected as u64 <= u32::MAX as u64 + 1 {
                    None
                } else {
                    Some(PipelineError::Assertion(Operation::InvalidNumberOfPorts))
                }
            },
            _ => None,
        }
    }
}

/// A render asked of a pipeline that `init` has not completed is refused
/// with `NotInitialized` and changes nothing.
pub proof fn lemma_render_needs_init(
    v: PipelineView,
    size: (u32, u32),
    len: u32,
    rect: DisplayRect,
    timeout: i32,
)
    requires
        !v.ready,
    ensures
        begin_render(v, size, len, rect, timeout) == (v, Next::Done(
            Err(PipelineError::Assertion(Operation::NotInitialized)),
        )),
{
}

/// Only the completion of an `init` plan sets a pipeline up.
pub proof fn lemma_ready_only_from_init(v: PipelineView, reply: Reply)
    requires
        v.wf(),
        !v.ready,
        v.task != Task::Idle,
    ensures
        transition(v, reply).0.ready ==> v.task == Task::Init && transition(v, reply).1 == Next::Done(
            Ok(()),
        ),
{
}

/// `deinit` on a pipeline that lacks a unit does nothing, however often it
/// is called.
pub proof fn lemma_deinit_without_units(v: PipelineView)
    requires
        !(v.render.created && v.resize.created),
    ensures
        begin_deinit(v) == (v, Next::Done(Ok(()))),
        begin_deinit(begin_deinit(v).0) == begin_deinit(v),
{
}

/// A `deinit` that completed leaves no unit behind, so the `deinit` after it
/// does nothing.
pub proof fn lemma_deinit_twice(v: PipelineView, reply: Reply)
    requires
        v.wf(),
        v.task == Task::Deinit,
        transition(v, reply).1 == Next::Done(Ok(())),
    ensures
        !transition(v, reply).0.ready,
        begin_deinit(transition(v, reply).0) == (transition(v, reply).0, Next::Done(Ok(()))),
{
    assert(v.plan[v.pos] == v.plan.last());
}

/// A unit creation that reports a non-zero status ends `init` with
/// `CreateComponentFailed` carrying that status, and leaves the pipeline not
/// set up.
pub proof fn lemma_create_failure(v: PipelineView, reply: Reply)
    requires
        v.wf(),
        v.task == Task::Init,
        v.plan[v.pos].command is CreateUnit,
        reply.status != 0,
    ensures
        transition(v, reply).1 == Next::Done(
            Err(PipelineError::ILClientError(Operation::CreateComponentFailed, reply.status)),
        ),
        !transition(v, reply).0.ready,
        transition(v, reply).0.task == Task::Idle,
{
    assert(v.plan[v.pos].on_failure == OnFailure::Client(Operation::CreateComponentFailed));
}

/// The states a plan leaves a unit in.
pub open spec fn settled(s: State) -> bool {
    s == State::Loaded || s == State::Idle || s == State::Executing
}

/// Moving from `from` to `to` stays put or takes one step along
/// `Loaded -> Idle -> Executing`.
pub open spec fn adjacent(from: State, to: State) -> bool {
    ||| from == to && settled(to)
    ||| from == State::Loaded && to == State::Idle
    ||| from == State::Idle && (to == State::Loaded || to == State::Executing)
    ||| from == State::Executing && to == State::Idle
}

/// From step `i` on, each state change of `plan` takes its unit one step from
/// the state that the unit was left in: `render` and `resize` before step `i`.
pub open spec fn orderly_from(plan: Seq<Step>, i: int, render: State, resize: State) -> bool
    decreases plan.len() - i,
{
    if i < 0 || i >= plan.len() {
        true
    } else {
        match plan[i].command {
            Command::ChangeState { unit, state } => match unit {
                Unit::Render => adjacent(render, state) && orderly_from(plan, i + 1, state, resize),
                Unit::Resize => adjacent(resize, state) && orderly_from(plan, i + 1, render, state),
            },
            _ => orderly_from(plan, i + 1, render, resize),
        }
    }
}

/// A state change handed out takes its unit one step from the state last
/// requested of it.
pub open spec fn one_step_issued(v: PipelineView, next: Next) -> bool {
    next matches Next::Run(Command::ChangeState { unit, state }) ==> adjacent(unit_of(v, unit).state, state)
}

/// `init` changes no state.
pub proof fn lemma_init_steps_states(render: State, resize: State)
    ensures
        orderly_from(init_script(), 0, render, resize),
{
    reveal_with_fuel(orderly_from, 5);
}

/// A render never skips a state: from any state a plan leaves the units in,
/// each of its state changes moves its unit one step along
/// `Loaded -> Idle -> Executing`.
pub proof fn lemma_render_steps_states(
    v: PipelineView,
    size: (u32, u32),
    len: u32,
    rect: DisplayRect,
    timeout: i32,
)
    requires
        settled(v.render.state),
        settled(v.resize.state),
    ensures
        orderly_from(render_script(v, size, len, rect, timeout), 0, v.render.state, v.resize.state),
{
    reveal_with_fuel(orderly_from, 28);
}

/// A teardown never skips a state: from any state a plan leaves the units
/// in, it steps each unit back to `Loaded` one state at a time.
pub proof fn lemma_deinit_steps_states(v: PipelineView)
    requires
        settled(v.render.state),
        settled(v.resize.state),
    ensures
        orderly_from(deinit_script(v), 0, v.render.state, v.resize.state),
{
    reveal_with_fuel(orderly_from, 15);
}

} // verus!
