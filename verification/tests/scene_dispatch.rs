use std::cell::RefCell;
use std::rc::Rc;

use cardinal::{
    scene, text, Bin, CallKind, CardinalError, Defaulted, Component, ComponentRequirements, DownlevelFlags, Empty,
    FeatureSet, GFXError, InputEvent, Limits, PresentMode, ShaderModel, StateError,
    SurfaceConfiguration, TextureFormat, Two,
};

type Log = Rc<RefCell<Vec<String>>>;

/// A component that writes every call it receives to a shared log.
struct Probe {
    name: &'static str,
    fail_init: Option<CardinalError>,
    fail_render: Option<CardinalError>,
    needs: ComponentRequirements,
    log: Log,
}

fn probe(name: &'static str, log: &Log) -> Probe {
    Probe {
        name,
        fail_init: None,
        fail_render: None,
        needs: ComponentRequirements::minimal(),
        log: log.clone(),
    }
}

fn answer(failure: Option<CardinalError>) -> Result<(), CardinalError> {
    match failure {
        Some(error) => Err(error),
        None => Ok(()),
    }
}

impl Component<u32> for Probe {
    fn init(&mut self, config: &SurfaceConfiguration, gpu: &u32) -> Result<(), CardinalError> {
        self.log.borrow_mut().push(format!(
            "{}.init {}x{} gpu={}",
            self.name, config.width, config.height, gpu
        ));
        answer(self.fail_init)
    }

    fn resize(&mut self, config: &SurfaceConfiguration, _gpu: &u32) -> Result<(), CardinalError> {
        self.log.borrow_mut().push(format!(
            "{}.resize {}x{}",
            self.name, config.width, config.height
        ));
        Ok(())
    }

    fn tick(&mut self, _gpu: &u32) -> Result<(), CardinalError> {
        self.log.borrow_mut().push(format!("{}.tick", self.name));
        Ok(())
    }

    fn frame(&mut self, event: &InputEvent, _gpu: &u32) -> Result<(), CardinalError> {
        self.log.borrow_mut().push(format!("{}.frame {}", self.name, code_of(event)));
        Ok(())
    }

    fn render(&mut self, _gpu: &u32) -> Result<(), CardinalError> {
        self.log.borrow_mut().push(format!("{}.render", self.name));
        answer(self.fail_render)
    }

    fn shader_setup(&mut self, _gpu: &u32) -> Result<(), CardinalError> {
        self.log.borrow_mut().push(format!("{}.shader_setup", self.name));
        Ok(())
    }

    fn requirements(&self) -> ComponentRequirements {
        self.needs
    }

    fn note(&mut self, _kind: CallKind, _seal: Defaulted) {}
}

fn config() -> SurfaceConfiguration {
    SurfaceConfiguration::new(TextureFormat::Bgra8UnormSrgb, 800, 600)
}

fn entries(log: &Log) -> Vec<String> {
    log.borrow().clone()
}

fn code_of(event: &InputEvent) -> u32 {
    match event {
        InputEvent::Key { code, .. } => *code,
        _ => 0,
    }
}

#[test]
fn init_visits_children_in_list_order() {
    let log: Log = Rc::new(RefCell::new(Vec::new()));
    let children: Vec<Box<dyn Component<u32>>> = vec![
        Box::new(probe("a", &log)),
        Box::new(probe("b", &log)),
        Box::new(probe("c", &log)),
    ];
    let mut tree = scene(children);
    assert_eq!(tree.init(&config(), &7), Ok(()));
    assert_eq!(
        entries(&log),
        vec![
            "a.init 800x600 gpu=7".to_string(),
            "b.init 800x600 gpu=7".to_string(),
            "c.init 800x600 gpu=7".to_string(),
        ]
    );
}

#[test]
fn init_stops_at_first_failing_child() {
    let log: Log = Rc::new(RefCell::new(Vec::new()));
    let error = CardinalError::State(StateError { code: 2 });
    let mut failing = probe("a", &log);
    failing.fail_init = Some(error);
    let children: Vec<Box<dyn Component<u32>>> =
        vec![Box::new(failing), Box::new(probe("b", &log))];
    let mut tree = scene(children);
    assert_eq!(tree.init(&config(), &1), Err(error));
    assert_eq!(entries(&log), vec!["a.init 800x600 gpu=1".to_string()]);
}

#[test]
fn init_failure_in_the_middle_spares_later_children() {
    let log: Log = Rc::new(RefCell::new(Vec::new()));
    let error = CardinalError::GFX(GFXError::SurfaceLost);
    let mut failing = probe("b", &log);
    failing.fail_init = Some(error);
    let children: Vec<Box<dyn Component<u32>>> = vec![
        Box::new(probe("a", &log)),
        Box::new(failing),
        Box::new(probe("c", &log)),
    ];
    let mut tree = scene(children);
    assert_eq!(tree.init(&config(), &1), Err(error));
    assert_eq!(
        entries(&log),
        vec!["a.init 800x600 gpu=1".to_string(), "b.init 800x600 gpu=1".to_string()]
    );
}

#[test]
fn empty_scene_succeeds() {
    let mut tree = scene(Vec::<Box<dyn Component<u32>>>::new());
    assert_eq!(tree.init(&config(), &0), Ok(()));
    assert_eq!(tree.render(&0), Ok(()));
    assert_eq!(tree.requirements(), ComponentRequirements::minimal());
}

#[test]
fn every_call_is_forwarded_in_order() {
    let log: Log = Rc::new(RefCell::new(Vec::new()));
    let children: Vec<Box<dyn Component<u32>>> =
        vec![Box::new(probe("a", &log)), Box::new(probe("b", &log))];
    let mut tree = scene(children);
    assert_eq!(tree.init(&config(), &1), Ok(()));
    log.borrow_mut().clear();
    let resized = config().resized(0, 0);
    assert_eq!(tree.resize(&resized, &1), Ok(()));
    assert_eq!(tree.tick(&1), Ok(()));
    assert_eq!(tree.frame(&InputEvent::Key { code: 42, pressed: true }, &1), Ok(()));
    assert_eq!(tree.render(&1), Ok(()));
    assert_eq!(
        entries(&log),
        vec![
            "a.resize 1x1".to_string(),
            "b.resize 1x1".to_string(),
            "a.tick".to_string(),
            "b.tick".to_string(),
            "a.frame 42".to_string(),
            "b.frame 42".to_string(),
            "a.render".to_string(),
            "b.render".to_string(),
        ]
    );
}

#[test]
fn render_stops_at_first_failing_child() {
    let log: Log = Rc::new(RefCell::new(Vec::new()));
    let error = CardinalError::GFX(GFXError::SurfaceLost);
    let mut failing = probe("a", &log);
    failing.fail_render = Some(error);
    let children: Vec<Box<dyn Component<u32>>> =
        vec![Box::new(failing), Box::new(probe("b", &log))];
    let mut tree = scene(children);
    assert_eq!(tree.init(&config(), &1), Ok(()));
    log.borrow_mut().clear();
    assert_eq!(tree.render(&1), Err(error));
    assert_eq!(entries(&log), vec!["a.render".to_string()]);
}

#[test]
fn children_without_overrides_answer_ok() {
    let log: Log = Rc::new(RefCell::new(Vec::new()));
    let children: Vec<Box<dyn Component<u32>>> = vec![
        Box::new(text("hello")),
        Box::new(probe("b", &log)),
        Box::new(Empty::new()),
    ];
    let mut tree = scene(children);
    assert_eq!(tree.init(&config(), &3), Ok(()));
    assert_eq!(tree.render(&3), Ok(()));
    assert_eq!(
        entries(&log),
        vec!["b.init 800x600 gpu=3".to_string(), "b.render".to_string()]
    );
}

#[test]
fn scenes_nest() {
    let log: Log = Rc::new(RefCell::new(Vec::new()));
    let inner: Vec<Box<dyn Component<u32>>> =
        vec![Box::new(probe("b", &log)), Box::new(probe("c", &log))];
    let outer: Vec<Box<dyn Component<u32>>> = vec![
        Box::new(probe("a", &log)),
        Box::new(scene(inner)),
        Box::new(probe("d", &log)),
    ];
    let mut tree = scene(outer);
    assert_eq!(tree.init(&config(), &1), Ok(()));
    log.borrow_mut().clear();
    assert_eq!(tree.tick(&1), Ok(()));
    assert_eq!(
        entries(&log),
        vec!["a.tick".to_string(), "b.tick".to_string(), "c.tick".to_string(), "d.tick".to_string()]
    );
}

#[test]
fn text_keeps_its_content() {
    let mut leaf = text("asdf");
    assert_eq!(leaf.as_str(), "asdf");
    assert_eq!(Component::<u32>::init(&mut leaf, &config(), &0), Ok(()));
    assert_eq!(leaf.as_str(), "asdf");
    assert_eq!(Component::<u32>::requirements(&leaf), ComponentRequirements::minimal());
}

#[test]
fn bin_hands_calls_to_its_content() {
    let log: Log = Rc::new(RefCell::new(Vec::new()));
    let error = CardinalError::State(StateError { code: 1 });
    let mut inner = probe("x", &log);
    inner.fail_render = Some(error);
    let mut bin = Bin(inner);
    assert_eq!(bin.init(&config(), &9), Ok(()));
    assert_eq!(bin.tick(&1), Ok(()));
    assert_eq!(bin.render(&9), Err(error));
    assert_eq!(
        entries(&log),
        vec!["x.init 800x600 gpu=9".to_string(), "x.tick".to_string(), "x.render".to_string()]
    );
}

#[test]
fn two_calls_first_then_second() {
    let log: Log = Rc::new(RefCell::new(Vec::new()));
    let mut both = Two::new(probe("a", &log), probe("b", &log));
    assert_eq!(both.init(&config(), &2), Ok(()));
    assert_eq!(both.render(&2), Ok(()));
    assert_eq!(
        entries(&log),
        vec![
            "a.init 800x600 gpu=2".to_string(),
            "b.init 800x600 gpu=2".to_string(),
            "a.render".to_string(),
            "b.render".to_string(),
        ]
    );
}

#[test]
fn two_stops_when_first_fails() {
    let log: Log = Rc::new(RefCell::new(Vec::new()));
    let error = CardinalError::State(StateError { code: 2 });
    let mut first = probe("a", &log);
    first.fail_init = Some(error);
    let mut both = Two::new(first, probe("b", &log));
    assert_eq!(both.init(&config(), &2), Err(error));
    assert_eq!(entries(&log), vec!["a.init 800x600 gpu=2".to_string()]);
}

#[test]
fn two_returns_error_of_second() {
    let log: Log = Rc::new(RefCell::new(Vec::new()));
    let error = CardinalError::GFX(GFXError::SurfaceLost);
    let mut second = probe("b", &log);
    second.fail_render = Some(error);
    let mut both = Two::new(probe("a", &log), second);
    assert_eq!(both.render(&2), Err(error));
    assert_eq!(entries(&log), vec!["a.render".to_string(), "b.render".to_string()]);
}

#[test]
fn scene_aggregates_requirements_of_children() {
    let log: Log = Rc::new(RefCell::new(Vec::new()));
    let mut a = probe("a", &log);
    a.needs = ComponentRequirements {
        optional_features: FeatureSet::from_bits(0b0001),
        required_features: FeatureSet::from_bits(0b0100),
        required_flags: DownlevelFlags::from_bits(0b01),
        required_shader_model: ShaderModel::Sm4,
        required_limits: Limits { max_bind_groups: 4, max_vertex_buffers: 2, ..Limits::zero() },
    };
    let mut b = probe("b", &log);
    b.needs = ComponentRequirements {
        optional_features: FeatureSet::from_bits(0b0010),
        required_features: FeatureSet::from_bits(0b1000),
        required_flags: DownlevelFlags::from_bits(0b10),
        required_shader_model: ShaderModel::Sm2,
        required_limits: Limits { max_bind_groups: 2, max_vertex_buffers: 8, ..Limits::zero() },
    };
    let children: Vec<Box<dyn Component<u32>>> =
        vec![Box::new(a), Box::new(text("t")), Box::new(b)];
    let tree = scene(children);
    assert_eq!(
        tree.requirements(),
        ComponentRequirements {
            optional_features: FeatureSet::from_bits(0b0011),
            required_features: FeatureSet::from_bits(0b1100),
            required_flags: DownlevelFlags::from_bits(0b11),
            required_shader_model: ShaderModel::Sm4,
            required_limits: Limits { max_bind_groups: 4, max_vertex_buffers: 8, ..Limits::zero() },
        }
    );
}

#[test]
fn new_configuration_is_mailbox_render_target() {
    let c = config();
    assert_eq!(c.present_mode, PresentMode::Mailbox);
    assert_eq!(c.usage, 16);
    assert_eq!((c.width, c.height), (800, 600));
}

#[test]
fn resize_hands_the_new_configuration_to_each_child() {
    let log: Log = Rc::new(RefCell::new(Vec::new()));
    let inner: Vec<Box<dyn Component<u32>>> = vec![Box::new(probe("b", &log))];
    let outer: Vec<Box<dyn Component<u32>>> =
        vec![Box::new(Bin(probe("a", &log))), Box::new(scene(inner))];
    let mut tree = scene(outer);
    assert_eq!(tree.init(&config(), &1), Ok(()));
    log.borrow_mut().clear();
    assert_eq!(tree.resize(&config().resized(1024, 768), &0), Ok(()));
    assert_eq!(entries(&log), vec!["a.resize 1024x768".to_string(), "b.resize 1024x768".to_string()]);
}

#[test]
fn leaves_answer_ok_to_every_call() {
    let mut leaf = text("t");
    let mut nothing = Empty::new();
    let input = InputEvent::Key { code: 3, pressed: false };
    assert_eq!(Component::<u32>::resize(&mut leaf, &config(), &0), Ok(()));
    assert_eq!(Component::<u32>::tick(&mut leaf, &0), Ok(()));
    assert_eq!(Component::<u32>::frame(&mut leaf, &input, &0), Ok(()));
    assert_eq!(Component::<u32>::render(&mut leaf, &0), Ok(()));
    assert_eq!(Component::<u32>::init(&mut nothing, &config(), &0), Ok(()));
    assert_eq!(Component::<u32>::tick(&mut nothing, &0), Ok(()));
    assert_eq!(Component::<u32>::frame(&mut nothing, &input, &0), Ok(()));
    assert_eq!(Component::<u32>::render(&mut nothing, &0), Ok(()));
    assert_eq!(leaf.as_str(), "t");
}

#[test]
fn shader_setup_is_forwarded_in_order() {
    let log: Log = Rc::new(RefCell::new(Vec::new()));
    let children: Vec<Box<dyn Component<u32>>> =
        vec![Box::new(Two::new(probe("a", &log), probe("b", &log))), Box::new(Bin(probe("c", &log)))];
    let mut tree = scene(children);
    assert_eq!(tree.init(&config(), &1), Ok(()));
    log.borrow_mut().clear();
    assert_eq!(tree.shader_setup(&1), Ok(()));
    assert_eq!(
        entries(&log),
        vec![
            "a.shader_setup".to_string(),
            "b.shader_setup".to_string(),
            "c.shader_setup".to_string(),
        ]
    );
}

#[test]
fn scene_without_children_answers_ok_to_every_call() {
    let mut tree = scene(Vec::<Box<dyn Component<u32>>>::new());
    assert_eq!(tree.render(&0), Ok(()));
    assert_eq!(tree.resize(&config(), &0), Ok(()));
    assert_eq!(tree.tick(&0), Ok(()));
    assert_eq!(tree.frame(&InputEvent::Other, &0), Ok(()));
    assert_eq!(tree.shader_setup(&0), Ok(()));
    assert_eq!(tree.init(&config(), &0), Ok(()));
}

#[test]
fn scene_forwards_whatever_its_own_past() {
    let log: Log = Rc::new(RefCell::new(Vec::new()));
    let children: Vec<Box<dyn Component<u32>>> = vec![Box::new(probe("a", &log))];
    let mut tree = scene(children);
    assert_eq!(tree.render(&1), Ok(()));
    assert_eq!(tree.init(&config(), &1), Ok(()));
    assert_eq!(tree.init(&config(), &1), Ok(()));
    assert_eq!(
        entries(&log),
        vec![
            "a.render".to_string(),
            "a.init 800x600 gpu=1".to_string(),
            "a.init 800x600 gpu=1".to_string(),
        ]
    );
}

#[test]
fn nested_scenes_reach_their_leaves_in_list_order() {
    let log: Log = Rc::new(RefCell::new(Vec::new()));
    let xs: Vec<Box<dyn Component<u32>>> =
        vec![Box::new(probe("x0", &log)), Box::new(probe("x1", &log))];
    let ys: Vec<Box<dyn Component<u32>>> =
        vec![Box::new(probe("y0", &log)), Box::new(probe("y1", &log))];
    let outer: Vec<Box<dyn Component<u32>>> = vec![Box::new(scene(xs)), Box::new(scene(ys))];
    let mut tree = scene(outer);
    assert_eq!(tree.init(&config(), &5), Ok(()));
    assert_eq!(tree.render(&5), Ok(()));
    assert_eq!(
        entries(&log),
        vec![
            "x0.init 800x600 gpu=5".to_string(),
            "x1.init 800x600 gpu=5".to_string(),
            "y0.init 800x600 gpu=5".to_string(),
            "y1.init 800x600 gpu=5".to_string(),
            "x0.render".to_string(),
            "x1.render".to_string(),
            "y0.render".to_string(),
            "y1.render".to_string(),
        ]
    );
}

#[test]
fn failure_in_a_nested_scene_stops_the_outer_scene() {
    let log: Log = Rc::new(RefCell::new(Vec::new()));
    let error = CardinalError::GFX(GFXError::SurfaceLost);
    let mut failing = probe("x1", &log);
    failing.fail_render = Some(error);
    let xs: Vec<Box<dyn Component<u32>>> = vec![
        Box::new(probe("x0", &log)),
        Box::new(failing),
        Box::new(probe("x2", &log)),
    ];
    let ys: Vec<Box<dyn Component<u32>>> = vec![Box::new(probe("y0", &log))];
    let outer: Vec<Box<dyn Component<u32>>> = vec![Box::new(scene(xs)), Box::new(scene(ys))];
    let mut tree = scene(outer);
    assert_eq!(tree.render(&5), Err(error));
    assert_eq!(entries(&log), vec!["x0.render".to_string(), "x1.render".to_string()]);
}
