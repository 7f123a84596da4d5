use display_pipeline::component::{Command, CreateFlags, Event, PortCommand, PortDomain, State, Unit};
use display_pipeline::error::{Operation, PipelineError};
use display_pipeline::geometry::{AspectMode, ContentMode, DisplayRect};
use display_pipeline::picture::DisplayImage;
use display_pipeline::pipeline::{Next, Pipeline, Reply};
use display_pipeline::request::ImageKind;

const OK: Reply = Reply { status: 0, ports: 0, first_port: 0 };

/// Answers every command with success, numbering the render unit's port 90
/// and the resize unit's ports 60 and 61.
fn hardware_ok(command: &Command) -> Reply {
    match command {
        Command::QueryPorts { unit: Unit::Render, .. } => Reply { status: 0, ports: 1, first_port: 90 },
        Command::QueryPorts { unit: Unit::Resize, .. } => Reply { status: 0, ports: 2, first_port: 60 },
        _ => OK,
    }
}

fn drive(
    pipeline: &mut Pipeline,
    first: Next,
    answer: &dyn Fn(&Command) -> Reply,
) -> (Vec<Command>, Result<(), PipelineError>) {
    let mut issued = Vec::new();
    let mut next = first;
    loop {
        match next {
            Next::Done(result) => return (issued, result),
            Next::Run(command) => {
                issued.push(command);
                next = pipeline.resume(answer(&command));
            }
        }
    }
}

fn ready_pipeline() -> Pipeline {
    let mut pipeline = Pipeline::new(1920, 1080);
    let first = pipeline.init();
    let (_, result) = drive(&mut pipeline, first, &hardware_ok);
    assert_eq!(result, Ok(()));
    pipeline
}

fn square_image() -> DisplayImage {
    DisplayImage::new(vec![7u8; 512 * 512 * 4], 512, 512, 100, ImageKind::Png)
}

#[test]
fn init_creates_units_and_numbers_ports() {
    let mut pipeline = Pipeline::new(1920, 1080);
    assert!(!pipeline.is_ready());
    let first = pipeline.init();
    let (issued, result) = drive(&mut pipeline, first, &hardware_ok);
    assert_eq!(result, Ok(()));
    assert!(pipeline.is_ready());
    assert!(!pipeline.is_busy());
    assert_eq!(
        issued,
        vec![
            Command::CreateUnit {
                unit: Unit::Render,
                flags: CreateFlags { disable_all_ports: true, enable_input_buffers: true, enable_output_buffers: false },
            },
            Command::QueryPorts { unit: Unit::Render, domain: PortDomain::Video, expected: 1 },
            Command::CreateUnit {
                unit: Unit::Resize,
                flags: CreateFlags { disable_all_ports: true, enable_input_buffers: true, enable_output_buffers: true },
            },
            Command::QueryPorts { unit: Unit::Resize, domain: PortDomain::Image, expected: 2 },
        ]
    );
}

#[test]
fn init_twice_does_nothing_the_second_time() {
    let mut pipeline = ready_pipeline();
    assert_eq!(pipeline.init(), Next::Done(Ok(())));
    assert!(pipeline.is_ready());
}

#[test]
fn create_failure_surfaces_and_leaves_pipeline_uninitialized() {
    let mut pipeline = Pipeline::new(1920, 1080);
    let first = pipeline.init();
    let (issued, result) = drive(&mut pipeline, first, &|_| Reply { status: -1, ports: 0, first_port: 0 });
    assert_eq!(issued.len(), 1);
    assert_eq!(result, Err(PipelineError::ILClientError(Operation::CreateComponentFailed, -1)));
    assert!(!pipeline.is_ready());
    assert!(!pipeline.is_busy());
}

#[test]
fn second_create_failure_leaves_pipeline_uninitialized() {
    let mut pipeline = Pipeline::new(1920, 1080);
    let first = pipeline.init();
    let answer = |c: &Command| match c {
        Command::CreateUnit { unit: Unit::Resize, .. } => Reply { status: 5, ports: 0, first_port: 0 },
        other => hardware_ok(other),
    };
    let (issued, result) = drive(&mut pipeline, first, &answer);
    assert_eq!(issued.len(), 3);
    assert_eq!(result, Err(PipelineError::ILClientError(Operation::CreateComponentFailed, 5)));
    assert!(!pipeline.is_ready());
}

#[test]
fn wrong_port_count_is_refused() {
    let mut pipeline = Pipeline::new(1920, 1080);
    let first = pipeline.init();
    let answer = |c: &Command| match c {
        Command::QueryPorts { unit: Unit::Render, .. } => Reply { status: 0, ports: 2, first_port: 90 },
        other => hardware_ok(other),
    };
    let (issued, result) = drive(&mut pipeline, first, &answer);
    assert_eq!(issued.len(), 2);
    assert_eq!(result, Err(PipelineError::Assertion(Operation::InvalidNumberOfPorts)));
    assert!(!pipeline.is_ready());
}

#[test]
fn port_query_failure_reports_status() {
    let mut pipeline = Pipeline::new(1920, 1080);
    let first = pipeline.init();
    let answer = |c: &Command| match c {
        Command::QueryPorts { .. } => Reply { status: 3, ports: 0, first_port: 0 },
        other => hardware_ok(other),
    };
    let (_, result) = drive(&mut pipeline, first, &answer);
    assert_eq!(result, Err(PipelineError::OMXError(Operation::UnableToGetParameter, 3)));
}

#[test]
fn render_before_init_is_refused() {
    let mut pipeline = Pipeline::new(1920, 1080);
    let image = square_image();
    let next = pipeline.render_image(&image, ContentMode::Aspect(AspectMode::Fit), 2000);
    assert_eq!(next, Next::Done(Err(PipelineError::Assertion(Operation::NotInitialized))));
    assert!(!pipeline.is_busy());
}

#[test]
fn render_issues_the_full_protocol() {
    let mut pipeline = ready_pipeline();
    let image = square_image();
    let first = pipeline.render_image(&image, ContentMode::Aspect(AspectMode::Fit), 2000);
    let (issued, result) = drive(&mut pipeline, first, &hardware_ok);
    assert_eq!(result, Ok(()));
    assert!(!pipeline.buffer_registered());
    let len = 512 * 512 * 4;
    assert_eq!(
        issued,
        vec![
            Command::ChangeState { unit: Unit::Resize, state: State::Idle },
            Command::ChangeState { unit: Unit::Render, state: State::Idle },
            Command::SendCommand { unit: Unit::Resize, command: PortCommand::Disable, port: 60 },
            Command::SendCommand { unit: Unit::Resize, command: PortCommand::Disable, port: 61 },
            Command::SendCommand { unit: Unit::Render, command: PortCommand::Disable, port: 90 },
            Command::ChangeState { unit: Unit::Resize, state: State::Idle },
            Command::ReadPortDefinition { unit: Unit::Resize, port: 60 },
            Command::WritePortDefinition { unit: Unit::Resize, port: 60, width: 512, height: 512, buffer_size: len },
            Command::SendCommand { unit: Unit::Resize, command: PortCommand::Enable, port: 60 },
            Command::UseBuffer { unit: Unit::Resize, port: 60, len },
            Command::ChangeState { unit: Unit::Resize, state: State::Executing },
            Command::MarkEndOfStream { filled: len },
            Command::SetDisplayRegion {
                unit: Unit::Render,
                port: 90,
                rect: Some(DisplayRect { x: 420, y: 0, w: 1080, h: 1080 }),
            },
            Command::EmptyBuffer { unit: Unit::Resize },
            Command::WaitForEvent { unit: Unit::Resize, event: Event::PortSettingsChanged, port: 61, timeout: 2000 },
            Command::ChangeState { unit: Unit::Render, state: State::Idle },
            Command::ChangeState { unit: Unit::Render, state: State::Executing },
            Command::ReadPortDefinition { unit: Unit::Resize, port: 61 },
            Command::WritePortDefinition { unit: Unit::Resize, port: 61, width: 1920, height: 1080, buffer_size: 0 },
            Command::ReadPortDefinition { unit: Unit::Render, port: 90 },
            Command::WritePortDefinition { unit: Unit::Render, port: 90, width: 1920, height: 1080, buffer_size: 0 },
            Command::SetupTunnel { from: Unit::Resize, out_port: 61, to: Unit::Render, in_port: 90 },
            Command::SendCommand { unit: Unit::Resize, command: PortCommand::Enable, port: 61 },
            Command::SendCommand { unit: Unit::Render, command: PortCommand::Enable, port: 90 },
            Command::WaitForEvent { unit: Unit::Render, event: Event::EndOfStream, port: 90, timeout: 2000 },
            Command::FreeBuffer { unit: Unit::Resize, port: 60 },
        ]
    );
}

#[test]
fn scale_to_fill_render_uses_whole_viewport() {
    let mut pipeline = ready_pipeline();
    let image = square_image();
    let first = pipeline.render_image(&image, ContentMode::ScaleToFill, 2000);
    let (issued, result) = drive(&mut pipeline, first, &hardware_ok);
    assert_eq!(result, Ok(()));
    assert!(issued.contains(&Command::SetDisplayRegion {
        unit: Unit::Render,
        port: 90,
        rect: Some(DisplayRect { x: 0, y: 0, w: 1920, h: 1080 }),
    }));
}

#[test]
fn format_negotiation_timeout_fails_render() {
    let mut pipeline = ready_pipeline();
    let image = square_image();
    let first = pipeline.render_image(&image, ContentMode::Aspect(AspectMode::Fit), 2000);
    let answer = |c: &Command| match c {
        Command::WaitForEvent { event: Event::PortSettingsChanged, .. } => Reply { status: -2, ports: 0, first_port: 0 },
        other => hardware_ok(other),
    };
    let (issued, result) = drive(&mut pipeline, first, &answer);
    assert_eq!(issued.len(), 15);
    assert_eq!(result, Err(PipelineError::ILClientError(Operation::EventTimeout, -2)));
    assert!(pipeline.buffer_registered());
    assert!(pipeline.is_ready());
}

#[test]
fn end_of_stream_timeout_and_tunnel_failure_are_passed_over() {
    let mut pipeline = ready_pipeline();
    let image = square_image();
    let first = pipeline.render_image(&image, ContentMode::Aspect(AspectMode::Fill), 2000);
    let answer = |c: &Command| match c {
        Command::WaitForEvent { event: Event::EndOfStream, .. } => Reply { status: -2, ports: 0, first_port: 0 },
        Command::SetupTunnel { .. } => Reply { status: 9, ports: 0, first_port: 0 },
        Command::ChangeState { .. } => Reply { status: 1, ports: 0, first_port: 0 },
        other => hardware_ok(other),
    };
    let (issued, result) = drive(&mut pipeline, first, &answer);
    assert_eq!(issued.len(), 26);
    assert_eq!(result, Ok(()));
}

#[test]
fn command_failures_map_to_their_operations() {
    let cases: Vec<(fn(&Command) -> bool, PipelineError)> = vec![
        (|c| matches!(c, Command::SendCommand { .. }), PipelineError::OMXError(Operation::SendCommandFailed, 4)),
        (|c| matches!(c, Command::ReadPortDefinition { .. }), PipelineError::OMXError(Operation::UnableToGetParameter, 4)),
        (|c| matches!(c, Command::WritePortDefinition { .. }), PipelineError::OMXError(Operation::UnableToSetParameter, 4)),
        (|c| matches!(c, Command::UseBuffer { .. }), PipelineError::OMXError(Operation::UseBufferFailed, 4)),
        (|c| matches!(c, Command::SetDisplayRegion { .. }), PipelineError::OMXError(Operation::UnableToSetConfig, 4)),
        (|c| matches!(c, Command::EmptyBuffer { .. }), PipelineError::OMXError(Operation::EmptyBufferFailed, 4)),
        (|c| matches!(c, Command::FreeBuffer { .. }), PipelineError::OMXError(Operation::FreeBufferFailed, 4)),
    ];
    for (fails, expected) in cases {
        let mut pipeline = ready_pipeline();
        let image = square_image();
        let first = pipeline.render_image(&image, ContentMode::Native, 500);
        let answer = move |c: &Command| if fails(c) { Reply { status: 4, ports: 0, first_port: 0 } } else { hardware_ok(c) };
        let (_, result) = drive(&mut pipeline, first, &answer);
        assert_eq!(result, Err(expected));
    }
}

#[test]
fn deinit_before_init_is_a_no_op_twice() {
    let mut pipeline = Pipeline::new(1920, 1080);
    assert_eq!(pipeline.deinit(), Next::Done(Ok(())));
    assert_eq!(pipeline.deinit(), Next::Done(Ok(())));
    assert!(!pipeline.is_busy());
}

#[test]
fn deinit_tears_down_then_is_a_no_op() {
    let mut pipeline = ready_pipeline();
    let first = pipeline.deinit();
    let (issued, result) = drive(&mut pipeline, first, &hardware_ok);
    assert_eq!(result, Ok(()));
    assert!(!pipeline.is_ready());
    assert_eq!(issued.len(), 13);
    assert_eq!(issued[0], Command::SendCommand { unit: Unit::Resize, command: PortCommand::Disable, port: 60 });
    assert_eq!(
        issued[1],
        Command::WaitForEvent { unit: Unit::Resize, event: Event::PortDisabled, port: 60, timeout: 1000 }
    );
    assert_eq!(issued[9], Command::ChangeState { unit: Unit::Resize, state: State::Loaded });
    assert_eq!(issued[12], Command::ReleaseUnits);
    assert_eq!(pipeline.deinit(), Next::Done(Ok(())));
    assert_eq!(pipeline.deinit(), Next::Done(Ok(())));
}

#[test]
fn deinit_releases_a_buffer_left_by_a_failed_render() {
    let mut pipeline = ready_pipeline();
    let image = square_image();
    let first = pipeline.render_image(&image, ContentMode::Aspect(AspectMode::Fit), 2000);
    let answer = |c: &Command| match c {
        Command::EmptyBuffer { .. } => Reply { status: 2, ports: 0, first_port: 0 },
        other => hardware_ok(other),
    };
    let (_, result) = drive(&mut pipeline, first, &answer);
    assert_eq!(result, Err(PipelineError::OMXError(Operation::EmptyBufferFailed, 2)));
    assert!(pipeline.buffer_registered());
    let first = pipeline.deinit();
    let (issued, result) = drive(&mut pipeline, first, &hardware_ok);
    assert_eq!(result, Ok(()));
    assert_eq!(issued.len(), 14);
    assert_eq!(issued[0], Command::FreeBuffer { unit: Unit::Resize, port: 60 });
    assert!(!pipeline.buffer_registered());
}

#[test]
fn render_after_failed_render_releases_old_buffer_first() {
    let mut pipeline = ready_pipeline();
    let image = square_image();
    let first = pipeline.render_image(&image, ContentMode::Aspect(AspectMode::Fit), 2000);
    let answer = |c: &Command| match c {
        Command::WaitForEvent { event: Event::PortSettingsChanged, .. } => Reply { status: -2, ports: 0, first_port: 0 },
        other => hardware_ok(other),
    };
    let (_, result) = drive(&mut pipeline, first, &answer);
    assert_eq!(result, Err(PipelineError::ILClientError(Operation::EventTimeout, -2)));
    assert!(pipeline.buffer_registered());
    let first = pipeline.render_image(&image, ContentMode::Aspect(AspectMode::Fit), 2000);
    let (issued, result) = drive(&mut pipeline, first, &hardware_ok);
    assert_eq!(result, Ok(()));
    assert_eq!(issued.len(), 27);
    assert_eq!(issued[0], Command::FreeBuffer { unit: Unit::Resize, port: 60 });
    assert_eq!(issued[1], Command::ChangeState { unit: Unit::Resize, state: State::Idle });
    assert!(!pipeline.buffer_registered());
}

#[test]
fn failed_deinit_can_be_retried() {
    let mut pipeline = ready_pipeline();
    let first = pipeline.deinit();
    let answer = |c: &Command| match c {
        Command::SendCommand { command: PortCommand::Flush, .. } => Reply { status: 8, ports: 0, first_port: 0 },
        other => hardware_ok(other),
    };
    let (_, result) = drive(&mut pipeline, first, &answer);
    assert_eq!(result, Err(PipelineError::OMXError(Operation::SendCommandFailed, 8)));
    let first = pipeline.deinit();
    let (issued, result) = drive(&mut pipeline, first, &hardware_ok);
    assert_eq!(result, Ok(()));
    assert_eq!(issued.len(), 13);
}

#[test]
fn render_after_deinit_is_refused_until_init() {
    let mut pipeline = ready_pipeline();
    let first = pipeline.deinit();
    let (_, result) = drive(&mut pipeline, first, &hardware_ok);
    assert_eq!(result, Ok(()));
    let image = square_image();
    let next = pipeline.render_image(&image, ContentMode::ScaleToFill, 2000);
    assert_eq!(next, Next::Done(Err(PipelineError::Assertion(Operation::NotInitialized))));
    let first = pipeline.init();
    let (_, result) = drive(&mut pipeline, first, &hardware_ok);
    assert_eq!(result, Ok(()));
    let first = pipeline.render_image(&image, ContentMode::ScaleToFill, 2000);
    let (_, result) = drive(&mut pipeline, first, &hardware_ok);
    assert_eq!(result, Ok(()));
}
