use std::sync::{Arc, Mutex};

use observability::services::user_service::{ServiceError, UserService};
use observability::telemetry::Telemetry;
use opentelemetry::sdk::export::trace::SpanData;
use opentelemetry::sdk::trace::{Span, SpanProcessor, TracerProvider};
use opentelemetry::trace::{Status, TraceResult};
use opentelemetry::{Context, Key, Value};

/// Keeps every span that ends.
#[derive(Debug, Clone)]
struct Collector {
    ended: Arc<Mutex<Vec<SpanData>>>,
}

impl SpanProcessor for Collector {
    fn on_start(&self, _span: &mut Span, _cx: &Context) {}

    fn on_end(&self, span: SpanData) {
        self.ended.lock().unwrap().push(span);
    }

    fn force_flush(&self) -> TraceResult<()> {
        Ok(())
    }

    fn shutdown(&mut self) -> TraceResult<()> {
        Ok(())
    }
}

#[test]
fn installed_tracer_receives_what_the_journal_says() {
    let collector = Collector { ended: Arc::new(Mutex::new(Vec::new())) };
    let provider = TracerProvider::builder().with_span_processor(collector.clone()).build();
    let _ = opentelemetry::global::set_tracer_provider(provider);
    let telemetry = Telemetry::new();

    let report = UserService.get_user_by_id(&telemetry, "123".to_string());
    assert!(report.result.is_ok());
    {
        let ended = collector.ended.lock().unwrap();
        assert_eq!(ended.len(), 1);
        let span = &ended[0];
        assert_eq!(span.name, "getUserById");
        assert_eq!(span.instrumentation_lib.name, "user-service");
        assert_eq!(span.status, Status::Ok);
        assert_eq!(span.attributes.len(), 3);
        assert_eq!(span.attributes.get(&Key::new("user.id")), Some(&Value::from("123")));
        assert_eq!(span.attributes.get(&Key::new("operation.type")), Some(&Value::from("read")));
        assert_eq!(span.attributes.get(&Key::new("user.found")), Some(&Value::from(true)));
        let events: Vec<&str> = span.events.iter().map(|event| event.name.as_ref()).collect();
        assert_eq!(events, vec!["Fetching user from database"]);
    }

    let span = UserService.begin_lookup(&telemetry, "9");
    assert_eq!(collector.ended.lock().unwrap().len(), 1);
    let report =
        UserService.finish_lookup(span, Err(ServiceError { message: "not found".to_string() }));
    assert_eq!(report.result, Err(ServiceError { message: "not found".to_string() }));
    {
        let ended = collector.ended.lock().unwrap();
        assert_eq!(ended.len(), 2);
        let span = &ended[1];
        assert_eq!(span.name, "getUserById");
        assert_eq!(span.status, Status::error("not found"));
        assert_eq!(span.attributes.len(), 2);
        assert_eq!(span.attributes.get(&Key::new("user.id")), Some(&Value::from("9")));
        assert_eq!(span.attributes.get(&Key::new("user.found")), None);
        let events: Vec<&str> = span.events.iter().map(|event| event.name.as_ref()).collect();
        assert_eq!(events, vec!["Fetching user from database", "exception"]);
        let exception = span.events.iter().last().unwrap();
        assert_eq!(exception.attributes.len(), 1);
        assert_eq!(exception.attributes[0].key, Key::new("exception.message"));
        assert_eq!(exception.attributes[0].value, Value::from("not found"));
    }

    opentelemetry::global::shutdown_tracer_provider();
    let report = UserService.get_user_by_id(&telemetry, "123".to_string());
    assert_eq!(report.result.expect("the lookup succeeds").id, "123");
    assert_eq!(collector.ended.lock().unwrap().len(), 2);
}
