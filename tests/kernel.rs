use std::cell::RefCell;
use std::rc::Rc;

use glkernel::{
    event, fixed_update_event, keyboard_event_down, keyboard_event_up, mouse_event_down,
    mouse_event_up, resize_event, touch_event_down, touch_event_up, update_event, BuildError,
    BuildRequest, Builder, Context, Event, EventBus, GlCommand, Handler, PrimitiveKind,
    ReentrantDispatchError, Rgba, ShaderStage, VertexArray,
};

fn bits(values: &[f32]) -> Vec<u32> {
    values.iter().map(|v| v.to_bits()).collect()
}

fn triangle() -> VertexArray {
    VertexArray {
        name: "pos".to_string(),
        data: bits(&[0.0, 0.5, 0.0, -0.5, -0.5, 0.0, 0.5, -0.5, 0.0]),
    }
}

fn describe(ev: Event<'_>) -> String {
    match ev {
        Event::KeyUp(k) => format!("KeyUp({})", k),
        Event::KeyDown(k) => format!("KeyDown({})", k),
        Event::Update => "Update".to_string(),
        Event::FixedUpdate => "FixedUpdate".to_string(),
        Event::Resize(w, h) => format!("Resize({},{})", w, h),
        Event::TouchUp(x, y) => format!("TouchUp({},{})", x, y),
        Event::TouchDown(x, y) => format!("TouchDown({},{})", x, y),
        Event::MouseUp(p, x, y) => format!("MouseUp({},{},{})", p, x, y),
        Event::MouseDown(p, x, y) => format!("MouseDown({},{},{})", p, x, y),
    }
}

struct Recorder {
    tag: &'static str,
    seen: Rc<RefCell<Vec<String>>>,
}

impl Handler for Recorder {
    fn handle(&mut self, ev: Event<'_>) {
        self.seen.borrow_mut().push(format!("{}:{}", self.tag, describe(ev)));
    }
}

fn recorder(tag: &'static str, seen: &Rc<RefCell<Vec<String>>>) -> Recorder {
    Recorder { tag, seen: seen.clone() }
}

/// Answers every request of a session: each stage compiles and links as
/// given, buffers are numbered from 100 and every name resolves to `location`.
fn run_session(
    mut b: Builder,
    vertex_ok: bool,
    fragment_ok: bool,
    link_ok: bool,
    location: i32,
) -> Builder {
    loop {
        match b.request() {
            BuildRequest::Compile(ShaderStage::Vertex) => {
                b.shader_compiled(vertex_ok, "vertex log".to_string())
            }
            BuildRequest::Compile(ShaderStage::Fragment) => {
                b.shader_compiled(fragment_ok, "fragment log".to_string())
            }
            BuildRequest::Link => b.program_linked(7, link_ok, "link log".to_string()),
            BuildRequest::Upload(i) => b.array_uploaded(100 + i as u32, location),
            BuildRequest::Finished => return b,
        }
    }
}

#[test]
fn build_succeeds_when_stages_compile_and_link() {
    let b = run_session(Builder::new(vec![triangle()], PrimitiveKind::Triangles), true, true, true, 0);
    let o = b.finish().unwrap();
    assert_eq!(o.shader_program(), 7);
    assert_eq!(o.attributes(), &vec![0]);
    assert_eq!(o.buffers(), &vec![100]);
    assert_eq!(o.vertex_count(), 3);
    assert_eq!(o.draw_type(), PrimitiveKind::Triangles);
    assert_eq!(o.vertex()[0].data, triangle().data);
}

#[test]
fn vertex_compile_failure_keeps_log() {
    let b = run_session(Builder::new(vec![triangle()], PrimitiveKind::Triangles), false, true, true, 0);
    match b.finish() {
        Err(BuildError::ShaderCompile { stage, log }) => {
            assert_eq!(stage, ShaderStage::Vertex);
            assert_eq!(log, "vertex log");
        }
        other => panic!("unexpected {:?}", other),
    }
}

#[test]
fn fragment_compile_failure_keeps_log() {
    let b = run_session(Builder::new(vec![triangle()], PrimitiveKind::Triangles), true, false, true, 0);
    match b.finish() {
        Err(BuildError::ShaderCompile { stage, log }) => {
            assert_eq!(stage, ShaderStage::Fragment);
            assert_eq!(log, "fragment log");
        }
        other => panic!("unexpected {:?}", other),
    }
}

#[test]
fn link_failure_keeps_log() {
    let b = run_session(Builder::new(vec![triangle()], PrimitiveKind::Triangles), true, true, false, 0);
    match b.finish() {
        Err(BuildError::ProgramLink { log }) => assert_eq!(log, "link log"),
        other => panic!("unexpected {:?}", other),
    }
}

#[test]
fn session_steps_in_order() {
    let mut b = Builder::new(vec![triangle(), triangle()], PrimitiveKind::LineLoop);
    assert_eq!(b.request(), BuildRequest::Compile(ShaderStage::Vertex));
    b.shader_compiled(true, String::new());
    assert_eq!(b.request(), BuildRequest::Compile(ShaderStage::Fragment));
    b.shader_compiled(true, String::new());
    assert_eq!(b.request(), BuildRequest::Link);
    b.program_linked(3, true, String::new());
    assert_eq!(b.request(), BuildRequest::Upload(0));
    b.array_uploaded(10, 2);
    assert_eq!(b.request(), BuildRequest::Upload(1));
    b.array_uploaded(11, 4);
    assert_eq!(b.request(), BuildRequest::Finished);
    assert!(b.failure().is_none());
    let o = b.finish().unwrap();
    assert_eq!(o.attributes(), &vec![2, 4]);
    assert_eq!(o.buffers(), &vec![10, 11]);
}

#[test]
fn zero_arrays_give_empty_slots() {
    let b = run_session(Builder::new(vec![], PrimitiveKind::Points), true, true, true, 0);
    let o = b.finish().unwrap();
    assert!(o.attributes().is_empty());
    assert!(o.buffers().is_empty());
    assert_eq!(o.shader_program(), 7);
    assert_eq!(o.vertex_count(), 0);
}

#[test]
fn slots_match_buffers_for_many_arrays() {
    let arrays = vec![triangle(), triangle(), triangle()];
    let o = run_session(Builder::new(arrays, PrimitiveKind::Triangles), true, true, true, 1)
        .finish()
        .unwrap();
    assert_eq!(o.attributes().len(), 3);
    assert_eq!(o.buffers().len(), 3);
    assert_eq!(o.vertex().len(), 3);
}

#[test]
fn vertex_count_from_first_array() {
    let first = VertexArray { name: "a".to_string(), data: bits(&[0.0; 12]) };
    let second = VertexArray { name: "b".to_string(), data: bits(&[0.0; 3]) };
    let o = run_session(Builder::new(vec![first, second], PrimitiveKind::TriangleStrip), true, true, true, 0)
        .finish()
        .unwrap();
    assert_eq!(o.vertex_count(), 4);
}

#[test]
fn new_context_sets_viewport_and_black() {
    let mut ctx = Context::new(640, 480);
    let black = Rgba { r: 0, g: 0, b: 0, a: 1.0f32.to_bits() };
    assert_eq!(ctx.clear_color(), black);
    assert_eq!(
        ctx.take_commands(),
        vec![GlCommand::Viewport { width: 640, height: 480 }, GlCommand::SetClearColor(black)]
    );
    assert!(ctx.take_commands().is_empty());
}

#[test]
fn clear_twice_same_color() {
    let mut ctx = Context::new(1, 1);
    let orange = Rgba { r: 1.0f32.to_bits(), g: 0.5f32.to_bits(), b: 0, a: 1.0f32.to_bits() };
    ctx.set_clear_color(orange);
    ctx.take_commands();
    ctx.clear();
    ctx.clear();
    assert_eq!(ctx.take_commands(), vec![GlCommand::Clear(orange), GlCommand::Clear(orange)]);
}

#[test]
fn resize_sets_viewport_only() {
    let mut ctx = Context::new(10, 10);
    ctx.take_commands();
    ctx.resize(800, 600);
    assert_eq!(ctx.take_commands(), vec![GlCommand::Viewport { width: 800, height: 600 }]);
    assert!(ctx.elements.is_empty());
}

#[test]
fn draw_binds_each_slot_before_draw() {
    let mut ctx = Context::new(1, 1);
    let mut b = Builder::new(vec![triangle(), triangle()], PrimitiveKind::Triangles);
    b.shader_compiled(true, String::new());
    b.shader_compiled(true, String::new());
    b.program_linked(5, true, String::new());
    b.array_uploaded(20, 0);
    b.array_uploaded(21, 1);
    assert!(ctx.create_render_object(b).is_ok());
    ctx.take_commands();
    ctx.draw();
    assert_eq!(
        ctx.take_commands(),
        vec![
            GlCommand::UseProgram(5),
            GlCommand::BindBuffer(20),
            GlCommand::EnableAttribute(0),
            GlCommand::BindBuffer(21),
            GlCommand::EnableAttribute(1),
            GlCommand::DrawArrays { kind: PrimitiveKind::Triangles, first: 0, count: 3 },
        ]
    );
}

#[test]
fn unresolved_attribute_fails_build() {
    let mut b = Builder::new(vec![triangle(), triangle()], PrimitiveKind::Triangles);
    b.shader_compiled(true, String::new());
    b.shader_compiled(true, String::new());
    b.program_linked(3, true, String::new());
    b.array_uploaded(10, 0);
    b.array_uploaded(11, -1);
    assert_eq!(b.request(), BuildRequest::Finished);
    assert!(b.failure().is_some());
    match b.finish() {
        Err(BuildError::UnknownAttribute { name }) => assert_eq!(name, "pos"),
        other => panic!("unexpected {:?}", other),
    }
}

#[test]
fn unresolved_first_attribute_stops_session() {
    let b = run_session(Builder::new(vec![triangle()], PrimitiveKind::LineLoop), true, true, true, -1);
    let mut ctx = Context::new(1, 1);
    ctx.take_commands();
    assert!(matches!(ctx.create_render_object(b), Err(BuildError::UnknownAttribute { .. })));
    assert!(ctx.elements.is_empty());
}

#[test]
fn release_deletes_buffers_then_program() {
    let mut ctx = Context::new(1, 1);
    let mut b = Builder::new(vec![triangle(), triangle()], PrimitiveKind::Triangles);
    b.shader_compiled(true, String::new());
    b.shader_compiled(true, String::new());
    b.program_linked(5, true, String::new());
    b.array_uploaded(20, 0);
    b.array_uploaded(21, 1);
    assert!(ctx.create_render_object(b).is_ok());
    let b = run_session(Builder::new(vec![triangle()], PrimitiveKind::Lines), true, true, true, 0);
    assert!(ctx.create_render_object(b).is_ok());
    ctx.take_commands();
    ctx.release();
    assert!(ctx.elements.is_empty());
    assert_eq!(
        ctx.take_commands(),
        vec![
            GlCommand::DeleteBuffer(20),
            GlCommand::DeleteBuffer(21),
            GlCommand::DeleteProgram(5),
            GlCommand::DeleteBuffer(100),
            GlCommand::DeleteProgram(7),
        ]
    );
    ctx.draw();
    assert!(ctx.take_commands().is_empty());
}

#[test]
fn failed_build_leaves_surface_unchanged() {
    let mut ctx = Context::new(1, 1);
    ctx.take_commands();
    let b = run_session(Builder::new(vec![triangle()], PrimitiveKind::Triangles), false, true, true, 0);
    assert!(matches!(ctx.create_render_object(b), Err(BuildError::ShaderCompile { .. })));
    assert!(ctx.elements.is_empty());
    ctx.draw();
    assert!(ctx.take_commands().is_empty());
}

#[test]
fn primitive_codes_round_trip() {
    let kinds = [
        PrimitiveKind::Points,
        PrimitiveKind::Lines,
        PrimitiveKind::LineLoop,
        PrimitiveKind::LineStrip,
        PrimitiveKind::Triangles,
        PrimitiveKind::TriangleStrip,
        PrimitiveKind::TriangleFan,
    ];
    for (i, k) in kinds.iter().enumerate() {
        assert_eq!(k.code(), i as u32);
        assert_eq!(PrimitiveKind::from_code(i as u32), Some(*k));
    }
    assert_eq!(PrimitiveKind::Triangles.code(), 4);
    assert_eq!(PrimitiveKind::from_code(7), None);
}

#[test]
fn dispatch_keeps_order_and_payloads() {
    let seen = Rc::new(RefCell::new(Vec::new()));
    let mut bus = EventBus::new();
    event(&mut bus, recorder("h", &seen));
    assert_eq!(resize_event(&mut bus, 800, 600), Ok(()));
    assert_eq!(resize_event(&mut bus, 0, 0), Ok(()));
    assert_eq!(update_event(&mut bus), Ok(()));
    assert_eq!(*seen.borrow(), vec!["h:Resize(800,600)", "h:Resize(0,0)", "h:Update"]);
}

#[test]
fn every_trigger_builds_its_event() {
    let seen = Rc::new(RefCell::new(Vec::new()));
    let mut bus = EventBus::new();
    event(&mut bus, recorder("h", &seen));
    keyboard_event_up(&mut bus, "a").unwrap();
    keyboard_event_down(&mut bus, "b").unwrap();
    update_event(&mut bus).unwrap();
    fixed_update_event(&mut bus).unwrap();
    resize_event(&mut bus, 3, 4).unwrap();
    touch_event_up(&mut bus, 5, 6).unwrap();
    touch_event_down(&mut bus, 7, 8).unwrap();
    mouse_event_up(&mut bus, true, 9, 10).unwrap();
    mouse_event_down(&mut bus, false, 11, 12).unwrap();
    assert_eq!(
        *seen.borrow(),
        vec![
            "h:KeyUp(a)",
            "h:KeyDown(b)",
            "h:Update",
            "h:FixedUpdate",
            "h:Resize(3,4)",
            "h:TouchUp(5,6)",
            "h:TouchDown(7,8)",
            "h:MouseUp(true,9,10)",
            "h:MouseDown(false,11,12)",
        ]
    );
}

#[test]
fn empty_bus_dispatch_does_nothing() {
    let mut bus: EventBus<Recorder> = EventBus::new();
    assert_eq!(update_event(&mut bus), Ok(()));
    assert!(!bus.is_dispatching());
}

#[test]
fn reentrant_dispatch_refused_and_slot_kept() {
    let seen = Rc::new(RefCell::new(Vec::new()));
    let mut bus = EventBus::new();
    event(&mut bus, recorder("h", &seen));
    let outer = Event::Update;
    let mut lent = bus.begin_dispatch().unwrap();
    assert!(lent.is_some());
    assert!(bus.is_dispatching());
    // the handler, while running, triggers another dispatch
    assert_eq!(resize_event(&mut bus, 1, 2), Err(ReentrantDispatchError));
    assert!(matches!(bus.begin_dispatch(), Err(ReentrantDispatchError)));
    lent.as_mut().unwrap().handle(outer);
    bus.end_dispatch(lent);
    assert!(!bus.is_dispatching());
    assert_eq!(keyboard_event_up(&mut bus, "x"), Ok(()));
    assert_eq!(*seen.borrow(), vec!["h:Update", "h:KeyUp(x)"]);
}

#[test]
fn register_during_dispatch_wins() {
    let seen = Rc::new(RefCell::new(Vec::new()));
    let mut bus = EventBus::new();
    event(&mut bus, recorder("h1", &seen));
    let lent = bus.begin_dispatch().unwrap();
    event(&mut bus, recorder("h2", &seen));
    bus.end_dispatch(lent);
    update_event(&mut bus).unwrap();
    assert_eq!(*seen.borrow(), vec!["h2:Update"]);
}

#[test]
fn register_replaces_handler() {
    let seen = Rc::new(RefCell::new(Vec::new()));
    let mut bus = EventBus::new();
    event(&mut bus, recorder("h1", &seen));
    bus.register(recorder("h2", &seen));
    update_event(&mut bus).unwrap();
    touch_event_down(&mut bus, 1, 1).unwrap();
    assert_eq!(*seen.borrow(), vec!["h2:Update", "h2:TouchDown(1,1)"]);
}

struct FrameDriver {
    ctx: Rc<RefCell<Context>>,
}

impl Handler for FrameDriver {
    fn handle(&mut self, ev: Event<'_>) {
        if let Event::Update = ev {
            let mut ctx = self.ctx.borrow_mut();
            ctx.clear();
            ctx.draw();
        }
    }
}

#[test]
fn triangle_drawn_once_per_update() {
    let ctx = Rc::new(RefCell::new(Context::new(300, 150)));
    let b = run_session(Builder::new(vec![triangle()], PrimitiveKind::Triangles), true, true, true, 0);
    assert!(ctx.borrow_mut().create_render_object(b).is_ok());
    ctx.borrow_mut().take_commands();
    let mut bus = EventBus::new();
    event(&mut bus, FrameDriver { ctx: ctx.clone() });
    update_event(&mut bus).unwrap();
    let commands = ctx.borrow_mut().take_commands();
    let clears = commands.iter().filter(|c| matches!(c, GlCommand::Clear(_))).count();
    let draws: Vec<&GlCommand> =
        commands.iter().filter(|c| matches!(c, GlCommand::DrawArrays { .. })).collect();
    assert_eq!(clears, 1);
    assert_eq!(draws, vec![&GlCommand::DrawArrays { kind: PrimitiveKind::Triangles, first: 0, count: 3 }]);
}
