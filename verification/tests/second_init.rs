use log_bootstrap::log::{init, SetupError};
use std::path::Path;
use std::sync::OnceLock;
use tracing::callsite::{Callsite, Identifier};
use tracing::field::{FieldSet, Value};
use tracing::level_filters::LevelFilter;
use tracing::metadata::Kind;
use tracing::subscriber::Interest;
use tracing::{Event, Level, Metadata};

struct Site {
    meta: OnceLock<Metadata<'static>>,
}

impl Callsite for Site {
    fn set_interest(&self, _interest: Interest) {}

    fn metadata(&self) -> &Metadata<'_> {
        self.meta.get().expect("the metadata is set before the site is used")
    }
}

fn site(level: Level, line: u32) -> &'static Metadata<'static> {
    let site: &'static Site = Box::leak(Box::new(Site { meta: OnceLock::new() }));
    let fields = FieldSet::new(&["message"], Identifier(site));
    let meta = Metadata::new(
        "event",
        "billing",
        level,
        Some("src/billing.rs"),
        Some(line),
        Some("billing"),
        fields,
        Kind::EVENT,
    );
    site.meta.get_or_init(|| meta)
}

fn emit(meta: &'static Metadata<'static>, message: &str) -> bool {
    tracing::dispatcher::get_default(|dispatch| {
        if !dispatch.enabled(meta) {
            return false;
        }
        let fields = meta.fields();
        let key = fields.field("message").expect("the field was declared");
        let values = [(&key, Some(&message as &dyn Value))];
        dispatch.event(&Event::new(meta, &fields.value_set(&values)));
        true
    })
}

#[test]
fn second_init_is_refused_and_the_first_session_stays() {
    let first = init(Path::new("stdout"), "stdout", "info", "")
        .expect("the first session of a process starts");

    let second = init(Path::new("stdout"), "stdout", "debug", "trace");
    assert!(matches!(second, Err(SetupError::Install(None))));

    let dir = tempfile::tempdir().expect("a temporary directory");
    let fresh = dir.path().join("logs");
    let path = fresh.to_str().expect("a unicode path").to_string();
    let third = init(&fresh, &path, "error", "");
    assert!(matches!(third, Err(SetupError::Install(None))));
    assert_eq!(fs_err::read_dir(dir.path()).expect("the directory is readable").count(), 0);

    assert_eq!(LevelFilter::current(), LevelFilter::INFO);
    assert!(emit(site(Level::INFO, 1), "still listening"));
    assert!(!emit(site(Level::DEBUG, 2), "still filtered"));
    drop(first);
}
