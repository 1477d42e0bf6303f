use log_bootstrap::log::init;
use std::path::Path;
use std::sync::OnceLock;
use tracing::callsite::{Callsite, Identifier};
use tracing::field::{FieldSet, Value};
use tracing::level_filters::LevelFilter;
use tracing::metadata::Kind;
use tracing::subscriber::Interest;
use tracing::{Event, Level, Metadata};

struct Site {
    meta: OnceLock<Metadata<'static>>,
}

impl Callsite for Site {
    fn set_interest(&self, _interest: Interest) {}

    fn metadata(&self) -> &Metadata<'_> {
        self.meta.get().expect("the metadata is set before the site is used")
    }
}

fn site(level: Level, line: u32) -> &'static Metadata<'static> {
    let site: &'static Site = Box::leak(Box::new(Site { meta: OnceLock::new() }));
    let fields = FieldSet::new(&["message"], Identifier(site));
    let meta = Metadata::new(
        "event",
        "billing",
        level,
        Some("src/billing.rs"),
        Some(line),
        Some("billing"),
        fields,
        Kind::EVENT,
    );
    site.meta.get_or_init(|| meta)
}

fn emit(meta: &'static Metadata<'static>, message: &str) -> bool {
    tracing::dispatcher::get_default(|dispatch| {
        if !dispatch.enabled(meta) {
            return false;
        }
        let fields = meta.fields();
        let key = fields.field("message").expect("the field was declared");
        let values = [(&key, Some(&message as &dyn Value))];
        dispatch.event(&Event::new(meta, &fields.value_set(&values)));
        true
    })
}

#[test]
fn unknown_level_falls_back_to_debug() {
    let guard = init(Path::new("stdout"), "stdout", "Info", "")
        .expect("the first session of a process starts");
    assert_eq!(LevelFilter::current(), LevelFilter::DEBUG);
    assert!(emit(site(Level::ERROR, 1), "error record"));
    assert!(emit(site(Level::WARN, 2), "warn record"));
    assert!(emit(site(Level::INFO, 3), "info record"));
    assert!(emit(site(Level::DEBUG, 4), "debug record"));
    assert!(!emit(site(Level::TRACE, 5), "trace record"));
    drop(guard);
}
