use raytracer::integrator::{Bounce, Path};

#[test]
fn no_budget_is_black_at_once() {
    assert_eq!(Path::start(0), Path::Black);
}

#[test]
fn a_budget_starts_tracing() {
    assert_eq!(Path::start(1), Path::Tracing { depth: 1 });
    assert_eq!(Path::start(50), Path::Tracing { depth: 50 });
    assert_eq!(Path::start(u32::MAX), Path::Tracing { depth: u32::MAX });
}

#[test]
fn a_miss_ends_with_the_background() {
    assert_eq!(Path::start(50).step(Bounce::Miss), Path::Background);
    assert_eq!(Path::start(1).step(Bounce::Miss), Path::Background);
}

#[test]
fn an_absorbing_surface_ends_black() {
    assert_eq!(Path::start(50).step(Bounce::Absorbed), Path::Black);
    assert_eq!(Path::start(1).step(Bounce::Absorbed), Path::Black);
}

#[test]
fn a_scattered_ray_goes_on_with_one_bounce_less() {
    assert_eq!(
        Path::start(50).step(Bounce::Scattered),
        Path::Tracing { depth: 49 }
    );
    assert_eq!(
        Path::start(2).step(Bounce::Scattered),
        Path::Tracing { depth: 1 }
    );
}

#[test]
fn the_last_bounce_ends_black() {
    assert_eq!(Path::start(1).step(Bounce::Scattered), Path::Black);
}

#[test]
fn a_path_without_a_bounce_to_take_is_black_whatever_the_scene_answers() {
    let stray = Path::Tracing { depth: 0 };
    for bounce in [Bounce::Miss, Bounce::Absorbed, Bounce::Scattered] {
        assert_eq!(stray.step(bounce), Path::Black);
        assert_eq!(Path::start(0).step(bounce), Path::Black);
    }
}

#[test]
fn an_ended_path_stays() {
    for bounce in [Bounce::Miss, Bounce::Absorbed, Bounce::Scattered] {
        assert_eq!(Path::Black.step(bounce), Path::Black);
        assert_eq!(Path::Background.step(bounce), Path::Background);
    }
}

#[test]
fn a_path_of_mirrors_ends_with_its_budget() {
    let mut path = Path::start(50);
    let mut sent = 0;
    while let Path::Tracing { .. } = path {
        path = path.step(Bounce::Scattered);
        sent += 1;
    }
    assert_eq!(sent, 50);
    assert_eq!(path, Path::Black);
}

#[test]
fn a_path_that_escapes_after_some_bounces() {
    let mut path = Path::start(5);
    path = path.step(Bounce::Scattered);
    path = path.step(Bounce::Scattered);
    assert_eq!(path, Path::Tracing { depth: 3 });
    path = path.step(Bounce::Miss);
    assert_eq!(path, Path::Background);
    path = path.step(Bounce::Scattered);
    assert_eq!(path, Path::Background);
}
