use subproc::view::{Component, Event, StatelessComponent, Text, View};

struct Counter {
    n: u32,
}

impl StatelessComponent for Counter {
    fn greet(&self) -> &'static str {
        "Counter"
    }
}

impl Component<u32> for Counter {
    fn on(&mut self, _ev: Event) -> u32 {
        self.n += 1;
        self.n
    }
}

#[test]
fn test_view_mount_and_greet() {
    let mut view: View<Text> = View::default();
    view.mount("label", Text::default());
    assert_eq!(view.greet("label"), Some("Hi"));
    assert_eq!(view.greet("other"), None);
    // Mounting under the same id replaces what stood there.
    view.mount("label", Text { text: String::from("again") });
    assert_eq!(view.greet("label"), Some("Hi"));
}

#[test]
fn test_view_on() {
    let mut view: View<Counter> = View::default();
    view.mount("clicks", Counter { n: 0 });
    assert_eq!(view.on("clicks", Event::Click), Some(1));
    assert_eq!(view.on("clicks", Event::Key('x')), Some(2));
    assert_eq!(view.on::<u32>("nothing", Event::Click), None);
    assert_eq!(view.greet("clicks"), Some("Counter"));
}

#[test]
fn test_view_mount_replaces() {
    let mut view: View<Counter> = View::default();
    view.mount("clicks", Counter { n: 0 });
    assert_eq!(view.on("clicks", Event::Click), Some(1));
    // Remounting under the same id replaces the component: the stale
    // counter state is gone.
    view.mount("clicks", Counter { n: 100 });
    assert_eq!(view.on("clicks", Event::Click), Some(101));
}
