//! Processing units and the hardware commands issued to them.
//!
//! A `Component` records what the pipeline knows of one unit: whether it has
//! been created, and the numbers of its ports. Its operations do not touch the
//! hardware: each appends to a plan the `Step` that performs it, together with
//! what a non-zero status from the hardware means for the plan.

use crate::error::Operation;
use crate::geometry::DisplayRect;
use vstd::prelude::*;

verus! {

/// A port of a unit.
#[derive(Debug, Clone, Copy, PartialEq, Eq, Structural)]
pub enum Direction {
    In,
    Out,
}

/// Lifecycle states of a unit.
#[derive(Debug, Clone, Copy, PartialEq, Eq, Structural)]
pub enum State {
    Invalid,
    Loaded,
    Idle,
    Executing,
    Pause,
    WaitForResources,
}

/// The two units of the pipeline.
#[derive(Debug, Clone, Copy, PartialEq, Eq, Structural)]
pub enum Unit {
    /// Renders its input port to the display.
    Render,
    /// Rescales the image from its input port to its output port.
    Resize,
}

/// Which port-numbering parameter describes a unit's ports.
#[derive(Debug, Clone, Copy, PartialEq, Eq, Structural)]
pub enum PortDomain {
    Video,
    Image,
}

/// Commands addressed to one port.
#[derive(Debug, Clone, Copy, PartialEq, Eq, Structural)]
pub enum PortCommand {
    Enable,
    Disable,
    Flush,
}

/// Completion events the pipeline waits for.
#[derive(Debug, Clone, Copy, PartialEq, Eq, Structural)]
pub enum Event {
    /// A port-disable command completed.
    PortDisabled,
    /// A flush command completed.
    Flushed,
    /// The output format was negotiated.
    PortSettingsChanged,
    /// A buffer carrying the end-of-stream flag went through.
    EndOfStream,
}

/// Ports enabled at creation, and how their buffers are handled.
#[derive(Debug, Clone, Copy, PartialEq, Eq, Structural)]
pub struct CreateFlags {
    pub disable_all_ports: bool,
    pub enable_input_buffers: bool,
    pub enable_output_buffers: bool,
}

/// One call into the hardware layer.
#[derive(Debug, Clone, Copy, PartialEq, Eq)]
pub enum Command {
    /// Create the unit with the given flags.
    CreateUnit { unit: Unit, flags: CreateFlags },
    /// Read how many ports the unit has and the number of the first; the
    /// pipeline expects `expected` of them.
    QueryPorts { unit: Unit, domain: PortDomain, expected: u32 },
    /// Ask the unit to move to `state`.
    ChangeState { unit: Unit, state: State },
    /// Send a port command.
    SendCommand { unit: Unit, command: PortCommand, port: u32 },
    /// Fetch the port's definition, the first half of a read-modify-write.
    ReadPortDefinition { unit: Unit, port: u32 },
    /// Write back the fetched definition for raw 32-bit pixels of the given
    /// frame size and buffer size, stride and compression left to the unit.
    WritePortDefinition { unit: Unit, port: u32, width: u32, height: u32, buffer_size: u32 },
    /// Set where the port's frames go on the display: display 0, letterbox
    /// mode with the unit's own aspect correction off, no rotation, and the
    /// destination `rect` taken exactly as given; `None` is full screen.
    SetDisplayRegion { unit: Unit, port: u32, rect: Option<DisplayRect> },
    /// Register the image's buffer of `len` bytes with the port.
    UseBuffer { unit: Unit, port: u32, len: u32 },
    /// Mark the registered buffer as holding `filled` bytes and ending the stream.
    MarkEndOfStream { filled: u32 },
    /// Hand the registered buffer to the unit to consume.
    EmptyBuffer { unit: Unit },
    /// Wait up to `timeout` milliseconds for `event` on the port.
    WaitForEvent { unit: Unit, event: Event, port: u32, timeout: i32 },
    /// Link an output port to an input port.
    SetupTunnel { from: Unit, out_port: u32, to: Unit, in_port: u32 },
    /// Release the registered buffer from the port.
    FreeBuffer { unit: Unit, port: u32 },
    /// Release both units.
    ReleaseUnits,
}

/// What a non-zero status of a step means.
#[derive(Debug, Clone, Copy, PartialEq, Eq, Structural)]
pub enum OnFailure {
    /// Best effort: go on with the next step.
    Ignore,
    /// Stop with an error of the unit-management layer.
    Client(Operation),
    /// Stop with an error of the media-acceleration core.
    Core(Operation),
}

/// A command and the handling of its failure.
#[derive(Debug, Clone, Copy, PartialEq, Eq)]
pub struct Step {
    pub command: Command,
    pub on_failure: OnFailure,
}

/// What the pipeline knows of one unit.
#[derive(Debug, Clone, Copy, PartialEq, Eq, Structural)]
pub struct Component {
    pub unit: Unit,
    /// The unit exists on the hardware side.
    pub created: bool,
    pub in_port: u32,
    /// Zero when the unit has no output port.
    pub out_port: u32,
    /// The state most recently requested of the unit; `Loaded` before the
    /// first request.
    pub state: State,
}

/// Timeout, in milliseconds, of the waits during teardown.
pub const TEARDOWN_TIMEOUT: i32 = 1000;

impl Component {
    /// The number of the port in `direction`.
    pub open spec fn port_spec(self, direction: Direction) -> u32 {
        match direction {
            Direction::In => self.in_port,
            Direction::Out => self.out_port,
        }
    }

    pub open spec fn create_step(self, flags: CreateFlags) -> Step {
        Step {
            command: Command::CreateUnit { unit: self.unit, flags },
            on_failure: OnFailure::Client(Operation::CreateComponentFailed),
        }
    }

    pub open spec fn query_ports_step(self, domain: PortDomain, expected: u32) -> Step {
        Step {
            command: Command::QueryPorts { unit: self.unit, domain, expected },
            on_failure: OnFailure::Core(Operation::UnableToGetParameter),
        }
    }

    pub open spec fn state_step(self, state: State) -> Step {
        Step { command: Command::ChangeState { unit: self.unit, state }, on_failure: OnFailure::Ignore }
    }

    pub open spec fn command_step(self, command: PortCommand, direction: Direction) -> Step {
        Step {
            command: Command::SendCommand { unit: self.unit, command, port: self.port_spec(direction) },
            on_failure: OnFailure::Core(Operation::SendCommandFailed),
        }
    }

    pub open spec fn read_definition_step(self, direction: Direction) -> Step {
        Step {
            command: Command::ReadPortDefinition { unit: self.unit, port: self.port_spec(direction) },
            on_failure: OnFailure::Core(Operation::UnableToGetParameter),
        }
    }

    pub open spec fn write_definition_step(
        self,
        direction: Direction,
        width: u32,
        height: u32,
        buffer_size: u32,
    ) -> Step {
        Step {
            command: Command::WritePortDefinition {
                unit: self.unit,
                port: self.port_spec(direction),
                width,
                height,
                buffer_size,
            },
            on_failure: OnFailure::Core(Operation::UnableToSetParameter),
        }
    }

    pub open spec fn display_region_step(self, direction: Direction, rect: Option<DisplayRect>) -> Step {
        Step {
            command: Command::SetDisplayRegion { unit: self.unit, port: self.port_spec(direction), rect },
            on_failure: OnFailure::Core(Operation::UnableToSetConfig),
        }
    }

    pub open spec fn wait_step(self, event: Event, direction: Direction, timeout: i32, fatal: bool) -> Step {
        Step {
            command: Command::WaitForEvent { unit: self.unit, event, port: self.port_spec(direction), timeout },
            on_failure: if fatal {
                OnFailure::Client(Operation::EventTimeout)
            } else {
                OnFailure::Ignore
            },
        }
    }

    pub open spec fn use_buffer_step(self, len: u32) -> Step {
        Step {
            command: Command::UseBuffer { unit: self.unit, port: self.in_port, len },
            on_failure: OnFailure::Core(Operation::UseBufferFailed),
        }
    }

    pub open spec fn empty_buffer_step(self) -> Step {
        Step {
            command: Command::EmptyBuffer { unit: self.unit },
            on_failure: OnFailure::Core(Operation::EmptyBufferFailed),
        }
    }

    pub open spec fn free_buffer_step(self, fatal: bool) -> Step {
        Step {
            command: Command::FreeBuffer { unit: self.unit, port: self.in_port },
            on_failure: if fatal {
                OnFailure::Core(Operation::FreeBufferFailed)
            } else {
                OnFailure::Ignore
            },
        }
    }

    /// A unit of the given kind that does not exist yet.
    pub fn new(unit: Unit) -> (r: Self)
        ensures
            r == (Component { unit, created: false, in_port: 0, out_port: 0, state: State::Loaded }),
    {
        Component { unit, created: false, in_port: 0, out_port: 0, state: State::Loaded }
    }

    /// The number of the port in `direction`.
    pub fn port(&self, direction: Direction) -> (r: u32)
        ensures
            r == self.port_spec(direction),
    {
        match direction {
            Direction::In => self.in_port,
            Direction::Out => self.out_port,
        }
    }

    /// Plans the creation of the unit.
    pub fn create(&self, plan: &mut Vec<Step>, flags: CreateFlags)
        ensures
            final(plan)@ == old(plan)@.push(self.create_step(flags)),
    {
        plan.push(
            Step {
                command: Command::CreateUnit { unit: self.unit, flags },
                on_failure: OnFailure::Client(Operation::CreateComponentFailed),
            },
        );
    }

    /// Plans reading the unit's port count and first port number.
    pub fn get_parameter(&self, plan: &mut Vec<Step>, domain: PortDomain, expected: u32)
        ensures
            final(plan)@ == old(plan)@.push(self.query_ports_step(domain, expected)),
    {
        plan.push(
            Step {
                command: Command::QueryPorts { unit: self.unit, domain, expected },
                on_failure: OnFailure::Core(Operation::UnableToGetParameter),
            },
        );
    }

    /// Plans a state change. The hardware's answer is not waited for, and a
    /// refusal does not stop the plan.
    pub fn set_state(&self, plan: &mut Vec<Step>, state: State)
        ensures
            final(plan)@ == old(plan)@.push(self.state_step(state)),
    {
        plan.push(
            Step { command: Command::ChangeState { unit: self.unit, state }, on_failure: OnFailure::Ignore },
        );
    }

    /// Plans a port command.
    pub fn send_command(&self, plan: &mut Vec<Step>, command: PortCommand, direction: Direction)
        ensures
            final(plan)@ == old(plan)@.push(self.command_step(command, direction)),
    {
        let port = self.port(direction);
        plan.push(
            Step {
                command: Command::SendCommand { unit: self.unit, command, port },
                on_failure: OnFailure::Core(Operation::SendCommandFailed),
            },
        );
    }

    /// Plans enabling a port.
    pub fn enable_port(&self, plan: &mut Vec<Step>, direction: Direction)
        ensures
            final(plan)@ == old(plan)@.push(self.command_step(PortCommand::Enable, direction)),
    {
        self.send_command(plan, PortCommand::Enable, direction)
    }

    /// Plans disabling a port.
    pub fn disable_port(&self, plan: &mut Vec<Step>, direction: Direction)
        ensures
            final(plan)@ == old(plan)@.push(self.command_step(PortCommand::Disable, direction)),
    {
        self.send_command(plan, PortCommand::Disable, direction)
    }

    /// Plans the read-modify-write of a port definition for raw 32-bit pixels
    /// of `width` by `height`, with a buffer of `buffer_size` bytes (zero when
    /// not given).
    pub fn set_image_size(
        &self,
        plan: &mut Vec<Step>,
        direction: Direction,
        width: u32,
        height: u32,
        buffer_size: Option<u32>,
    )
        ensures
            final(plan)@ == old(plan)@.push(self.read_definition_step(direction)).push(
                self.write_definition_step(
                    direction,
                    width,
                    height,
                    match buffer_size {
                        Some(n) => n,
                        None => 0,
                    },
                ),
            ),
    {
        let port = self.port(direction);
        let buffer_size = match buffer_size {
            Some(n) => n,
            None => 0,
        };
        plan.push(
            Step {
                command: Command::ReadPortDefinition { unit: self.unit, port },
                on_failure: OnFailure::Core(Operation::UnableToGetParameter),
            },
        );
        plan.push(
            Step {
                command: Command::WritePortDefinition { unit: self.unit, port, width, height, buffer_size },
                on_failure: OnFailure::Core(Operation::UnableToSetParameter),
            },
        );
    }

    /// Plans setting the display region of a port (letterbox mode, no aspect
    /// correction by the unit, no rotation): `Some` places the frames in
    /// exactly that rectangle, `None` shows them full screen.
    pub fn set_display_region(&self, plan: &mut Vec<Step>, direction: Direction, rect: Option<DisplayRect>)
        ensures
            final(plan)@ == old(plan)@.push(self.display_region_step(direction, rect)),
    {
        let port = self.port(direction);
        plan.push(
            Step {
                command: Command::SetDisplayRegion { unit: self.unit, port, rect },
                on_failure: OnFailure::Core(Operation::UnableToSetConfig),
            },
        );
    }

    /// Plans a wait for `event` on a port. A timeout stops the plan when
    /// `fatal`, and is passed over otherwise.
    pub fn wait_for_event(
        &self,
        plan: &mut Vec<Step>,
        event: Event,
        direction: Direction,
        timeout: i32,
        fatal: bool,
    )
        ensures
            final(plan)@ == old(plan)@.push(self.wait_step(event, direction, timeout, fatal)),
    {
        let port = self.port(direction);
        let on_failure = if fatal {
            OnFailure::Client(Operation::EventTimeout)
        } else {
            OnFailure::Ignore
        };
        plan.push(Step { command: Command::WaitForEvent { unit: self.unit, event, port, timeout }, on_failure });
    }

    /// Plans registering the image buffer of `len` bytes with the input port.
    pub fn use_buffer(&self, plan: &mut Vec<Step>, len: u32)
        ensures
            final(plan)@ == old(plan)@.push(self.use_buffer_step(len)),
    {
        plan.push(
            Step {
                command: Command::UseBuffer { unit: self.unit, port: self.in_port, len },
                on_failure: OnFailure::Core(Operation::UseBufferFailed),
            },
        );
    }

    /// Plans handing the registered buffer to the unit.
    pub fn empty_this_buffer(&self, plan: &mut Vec<Step>)
        ensures
            final(plan)@ == old(plan)@.push(self.empty_buffer_step()),
    {
        plan.push(
            Step {
                command: Command::EmptyBuffer { unit: self.unit },
                on_failure: OnFailure::Core(Operation::EmptyBufferFailed),
            },
        );
    }

    /// Plans releasing the registered buffer from the input port. A failure
    /// stops the plan when `fatal`, and is passed over otherwise.
    pub fn free_buffer(&self, plan: &mut Vec<Step>, fatal: bool)
        ensures
            final(plan)@ == old(plan)@.push(self.free_buffer_step(fatal)),
    {
        let on_failure = if fatal {
            OnFailure::Core(Operation::FreeBufferFailed)
        } else {
            OnFailure::Ignore
        };
        plan.push(Step { command: Command::FreeBuffer { unit: self.unit, port: self.in_port }, on_failure });
    }
}

} // verus!
