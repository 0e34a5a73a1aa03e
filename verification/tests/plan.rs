use hello_triangle::fault::Fault;
use hello_triangle::frame::{Color, Command, Draw, Span};
use hello_triangle::pipeline::{Pipeline, Topology, FRAGMENT_ENTRY, VERTEX_ENTRY};
use hello_triangle::state::{GameState, Progress, Setup};
use hello_triangle::window::{
    PhysicalSize, WindowAttributes, WINDOW_HEIGHT, WINDOW_TITLE, WINDOW_WIDTH,
};

fn context(width: u32, height: u32) -> GameState {
    let mut setup = Setup::begin(PhysicalSize { width, height });
    loop {
        match setup.advance(true) {
            Progress::Continue(next) => setup = next,
            Progress::Ready(state) => return state,
            Progress::Halted(fault) => panic!("halted: {}", fault.message()),
        }
    }
}

#[test]
fn main_window_has_title_and_size() {
    let window = WindowAttributes::main_window();
    assert_eq!(window.title, "WGPU Hello Triangle");
    assert_eq!(window.width, 1280);
    assert_eq!(window.height, 720);
}

#[test]
fn window_constants() {
    assert_eq!(WINDOW_TITLE, "WGPU Hello Triangle");
    assert_eq!(WINDOW_WIDTH, 1280);
    assert_eq!(WINDOW_HEIGHT, 720);
}

#[test]
fn pipeline_names_both_stages() {
    let pipeline = Pipeline::fixed();
    assert_eq!(pipeline.vertex_entry, "vs_main");
    assert_eq!(pipeline.fragment_entry, "fs_main");
    assert_eq!(VERTEX_ENTRY, "vs_main");
    assert_eq!(FRAGMENT_ENTRY, "fs_main");
}

#[test]
fn pipeline_assembles_triangles() {
    assert_eq!(Pipeline::fixed().topology, Topology::TriangleList);
}

#[test]
fn target_format_is_the_first_reported() {
    assert_eq!(Pipeline::target_format(1), Some(0));
    assert_eq!(Pipeline::target_format(7), Some(0));
    assert_eq!(Pipeline::target_format(usize::MAX), Some(0));
}

#[test]
fn target_format_of_an_empty_report() {
    assert_eq!(Pipeline::target_format(0), None);
}

#[test]
fn fault_messages() {
    assert_eq!(Fault::Surface.message(), "Failed to initialised surface");
    assert_eq!(Fault::Adapter.message(), "Failed to get adaptor");
    assert_eq!(Fault::Device.message(), "Failed to load device");
    assert_eq!(Fault::Format.message(), "Failed to get surface format");
    assert_eq!(Fault::Configuration.message(), "Failed to get surface configuration");
    assert_eq!(Fault::Frame.message(), "Failed to get frame");
    assert_eq!(Fault::Redraw.message(), "failed to redraw window");
}

#[test]
fn frame_is_acquire_pass_submit_present() {
    let commands = context(1280, 720).render();
    let grey = Color { red: 500, green: 500, blue: 500, alpha: 1000 };
    let triangle = Draw {
        vertices: Span { start: 0, end: 3 },
        instances: Span { start: 0, end: 1 },
    };
    assert_eq!(
        commands,
        vec![
            Command::Acquire,
            Command::Pass { clear: grey, draw: triangle },
            Command::Submit,
            Command::Present,
        ]
    );
}

#[test]
fn frame_has_one_clear_one_draw_one_present() {
    let commands = context(640, 480).render();
    let passes: Vec<&Command> =
        commands.iter().filter(|c| matches!(c, Command::Pass { .. })).collect();
    assert_eq!(passes.len(), 1);
    match passes[0] {
        Command::Pass { clear, draw } => {
            assert_eq!((clear.red, clear.green, clear.blue, clear.alpha), (500, 500, 500, 1000));
            assert_eq!(draw.vertices.end - draw.vertices.start, 3);
            assert_eq!(draw.instances.end - draw.instances.start, 1);
        }
        _ => unreachable!(),
    }
    assert_eq!(commands.iter().filter(|c| **c == Command::Acquire).count(), 1);
    assert_eq!(commands.iter().filter(|c| **c == Command::Submit).count(), 1);
    assert_eq!(commands.iter().filter(|c| **c == Command::Present).count(), 1);
}

#[test]
fn frame_is_the_same_every_time() {
    let state = context(1, 1);
    assert_eq!(state.render(), state.render());
    assert_eq!(state.render(), context(4000, 3000).render());
}

#[test]
fn only_acquiring_can_fail() {
    let grey = Color { red: 500, green: 500, blue: 500, alpha: 1000 };
    let triangle = Draw {
        vertices: Span { start: 0, end: 3 },
        instances: Span { start: 0, end: 1 },
    };
    assert_eq!(Command::Acquire.fault(), Some(Fault::Frame));
    assert_eq!(Command::Pass { clear: grey, draw: triangle }.fault(), None);
    assert_eq!(Command::Submit.fault(), None);
    assert_eq!(Command::Present.fault(), None);
}
