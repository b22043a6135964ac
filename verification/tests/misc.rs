use spectra::bootstrap::{keeps_dispatching, EventSig, Unhandled};
use spectra::cache::CacheBlock;
use spectra::effect::{then, Effect};
use spectra::gui::layout::{Floating, Horizontal, Vertical};
use spectra::gui::{Pos, Rect};
use spectra::id::Id;
use spectra::logger::{format_time, log_line, now, write_decimal, write_padded, LocalTime};
use spectra::object::ObjObjectKey;
use spectra::overlay::dispatch_corners;
use spectra::pulse::Pulse;
use spectra::renderer::Renderer;
use spectra::resource::context::DefaultContext;
use spectra::resource::{resource_key, resource_path, Load, LoadError, Reload, Res, ResCacheError, UpdateTimes};

#[test]
fn cache_hits_and_misses() {
    let mut c: CacheBlock<'static, String> = CacheBlock::new();
    assert!(c.lookup("mesh").is_none());
    let id = c.insert("mesh", "vertices".to_owned());
    assert_eq!(*id, 0);
    let id2 = c.insert("tex", "texels".to_owned());
    assert_eq!(*id2, 1);
    assert_eq!(c.lookup("mesh"), Some(Id::new(0)));
    assert_eq!(c.get_by_id(c.lookup("tex").unwrap()), Some(&"texels".to_owned()));
    assert_eq!(c.get_by_id(Id::new(2)), None);
    assert_eq!(c.len(), 2);
}

#[test]
fn cache_reload_under_a_name() {
    let mut c: CacheBlock<'static, u32> = CacheBlock::new();
    c.insert("a", 10);
    c.insert("b", 20);
    let id = c.insert("a", 30);
    assert_eq!(*id, 2);
    assert_eq!(c.get_by_id(c.lookup("a").unwrap()), Some(&30));
    assert_eq!(c.get_by_id(c.lookup("b").unwrap()), Some(&20));
    assert_eq!(c.get_by_id(Id::new(0)), Some(&10));
}

#[test]
fn ids_compare_by_value() {
    let a: Id<'static, u8> = Id::new(3);
    let b: Id<'static, u8> = 3.into();
    assert_eq!(a, b);
    assert_eq!(*a.clone(), 3);
    assert_ne!(a, Id::new(4));
}

#[test]
fn ids_expose_their_value() {
    let a: Id<'static, u8> = Id::new(42);
    assert_eq!(a.id, 42);
    assert_eq!(a.clone().id, 42);
    assert_eq!(a.debug_text(), "Id { id: 42 }");
    let z: Id<'static, String> = Id::new(0);
    assert_eq!(z.debug_text(), "Id { id: 0 }");
}

#[test]
fn overlay_corners_of_triangles_then_quads() {
    let tris = [(1u8, 2u8, 3u8), (4, 5, 6)];
    let quads = [(10u8, 11u8, 12u8, 13u8)];
    assert_eq!(dispatch_corners(&tris, &quads), vec![1, 2, 3, 4, 5, 6, 10, 11, 12, 12, 11, 13]);
    assert_eq!(dispatch_corners::<u8>(&[], &[]), Vec::<u8>::new());
    assert_eq!(dispatch_corners(&[], &quads).len(), 6);
}

#[test]
fn pulses_fire_from_their_threshold_on() {
    let p = Pulse::new(2.5f32, |_t: f32| ());
    assert!(p.try_action(1.0).is_none());
    assert!(p.try_action(2.5).is_some());
    assert!(p.try_action(3.0).is_some());
    assert!(p.try_action(f32::NAN).is_none());
    assert_eq!(p.time_threshold, 2.5);
    let q = Pulse::new(10u32, |_t: u32| ());
    assert!(q.try_action(9).is_none());
    assert!(q.try_action(10).is_some());
}

#[test]
fn rectangles_from_their_upper_left_corner() {
    let r = Rect::new(Pos::new(10, 20), 30, 40);
    assert_eq!(r.get_lower(), Pos::new(10, 60));
    assert_eq!(r.get_upper(), Pos::new(40, 20));
    assert_eq!(r, Rect::new(Pos::new(10, 20), 30, 40));
    let _layouts = (Horizontal, Vertical, Floating);
}

#[test]
fn time_formatting() {
    let t = LocalTime { year: 2018, month: 3, day: 9, hour: 7, minute: 5, second: 0, nanosecond: 42 };
    assert_eq!(format_time(&t), "03/09/2018 07:05:00:000000042");
    let t = LocalTime { year: -44, month: 12, day: 31, hour: 23, minute: 59, second: 59, nanosecond: 1_999_999_999 };
    assert_eq!(format_time(&t), "12/31/-44 23:59:59:1999999999");
    let n = now();
    assert_eq!(n.len(), 29);
    assert_eq!(&n[2..3], "/");
}

#[test]
fn decimal_writing() {
    let mut s = String::from("x=");
    write_decimal(&mut s, 0);
    write_decimal(&mut s, 18446744073709551615);
    assert_eq!(s, "x=018446744073709551615");
    let mut p = String::new();
    write_padded(&mut p, 7, 3);
    write_padded(&mut p, 12345, 2);
    assert_eq!(p, "00712345");
}

#[test]
fn log_lines() {
    assert_eq!(log_line("T", "34", "hello"), "\x1b[90mT \x1b[34m> hello\x1b[0m");
}

#[test]
fn resources_keys_and_handles() {
    assert_eq!(resource_key("model", "cube.obj"), "model/cube.obj");
    let r = Res::new(5u32);
    let r2 = r.clone();
    *r2.as_rc().borrow_mut() = 6;
    assert_eq!(*r.as_rc().borrow(), 6);
    assert_eq!(*r.borrow(), 6);
    let from_rc: Res<u32> = r.as_rc().clone().into();
    *from_rc.borrow_mut() = 7;
    assert_eq!(*r2.borrow(), 7);
    let e = LoadError::ParseFailed("bad".to_owned());
    assert_eq!(e.clone(), e);
    let c = ResCacheError::RootDoesDotExit(std::path::PathBuf::from("/nowhere"));
    assert_eq!(c.clone(), c);
    let _ctx = DefaultContext::new();
}

struct Double;
struct AddOne;

impl Effect for Double {
    type Input = u32;
    type Output = u64;
    fn apply(&mut self, input: u32) -> u64 {
        input as u64 * 2
    }
}

impl Effect for AddOne {
    type Input = u64;
    type Output = u64;
    fn apply(&mut self, input: u64) -> u64 {
        input + 1
    }
}

#[test]
fn effects_chain() {
    let mut e = then(Double, AddOne);
    assert_eq!(e.apply(20), 41);
}

struct Show;

impl Renderer<u8, String> for Show {
    fn render(&self, input: u8) -> String {
        input.to_string()
    }
}

#[test]
fn renderers_render() {
    assert_eq!(Show.render(7), "7");
}

#[test]
fn event_signals() {
    let mut u = Unhandled;
    assert_eq!(u.on_event(), EventSig::Ignored);
    assert!(keeps_dispatching(EventSig::Handled));
    assert!(keeps_dispatching(EventSig::Focused));
    assert!(keeps_dispatching(EventSig::Ignored));
    assert!(!keeps_dispatching(EventSig::Aborted));
}

#[test]
fn object_keys() {
    let k = ObjObjectKey("objects/ship.json".to_owned());
    assert_eq!(k.clone(), k);
    assert!(k != ObjObjectKey("objects/rock.json".to_owned()));
}

#[test]
fn reloads_wait_for_quiet_files() {
    let mut times = UpdateTimes::new();
    times.watch("model/cube", 0);
    times.watch("tex/wall", 100);
    let events = vec![
        ("model/cube".to_owned(), 500),
        ("model/cube".to_owned(), 2000),
        ("other".to_owned(), 5000),
        ("tex/wall".to_owned(), 50),
        ("model/cube".to_owned(), 2500),
        ("tex/wall".to_owned(), 1050),
    ];
    assert_eq!(times.sync(&events), vec!["model/cube".to_owned(), "tex/wall".to_owned()]);
    assert_eq!(times.last_update("model/cube"), Some(2500));
    assert_eq!(times.last_update("tex/wall"), Some(1050));
    assert_eq!(times.last_update("other"), None);
    assert_eq!(times.sync(&[("tex/wall".to_owned(), 2050)]), vec!["tex/wall".to_owned()]);
}

struct Mesh;

impl Load for Mesh {
    type Args = ();

    fn ty_str() -> &'static str {
        "model"
    }
}

#[test]
fn resource_paths_and_reload_arguments() {
    let p = resource_path::<Mesh>(std::path::Path::new("/data"), "cube.obj");
    assert_eq!(p, std::path::PathBuf::from("/data/model/cube.obj"));
    let () = Mesh.reload_args();
}
