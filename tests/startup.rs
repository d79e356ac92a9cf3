use time_service::{
    business_service_name, descriptor_sources, reflected_service_names, DescriptorSource,
    HealthRegistry, Phase, ServerError, ServingStatus, Startup, StartupAction, StartupEvent,
};

fn started() -> Startup {
    let mut s = Startup::new();
    assert_eq!(s.step(StartupEvent::Start), StartupAction::RegisterHealth);
    assert_eq!(s.step(StartupEvent::StatusPublished), StartupAction::BuildReflection);
    assert_eq!(s.step(StartupEvent::ReflectionBuilt), StartupAction::Bind);
    assert_eq!(s.step(StartupEvent::Bound), StartupAction::MarkServing);
    assert_eq!(s.step(StartupEvent::StatusPublished), StartupAction::Accept);
    s
}

#[test]
fn serving_once_started() {
    let s = started();
    assert_eq!(s.phase(), Phase::Accepting);
    assert_eq!(s.check_health(&business_service_name()), ServingStatus::Serving);
    assert_eq!(
        s.check_health("grpc.health.v1.Health.NotRegistered"),
        ServingStatus::ServiceNotFound
    );
    assert_eq!(s.check_health(""), ServingStatus::ServiceNotFound);
}

#[test]
fn unknown_until_bound() {
    let mut s = Startup::new();
    assert_eq!(s.check_health(&business_service_name()), ServingStatus::ServiceNotFound);
    s.step(StartupEvent::Start);
    assert_eq!(s.check_health(&business_service_name()), ServingStatus::Unknown);
    s.step(StartupEvent::StatusPublished);
    s.step(StartupEvent::ReflectionBuilt);
    assert_eq!(s.phase(), Phase::Binding);
    assert_eq!(s.check_health(&business_service_name()), ServingStatus::Unknown);
    s.step(StartupEvent::Bound);
    assert_eq!(s.check_health(&business_service_name()), ServingStatus::Serving);
    assert_eq!(s.phase(), Phase::MarkingServing);
}

#[test]
fn bind_failure_stops_before_accepting() {
    let mut s = Startup::new();
    let mut actions = vec![
        s.step(StartupEvent::Start),
        s.step(StartupEvent::StatusPublished),
        s.step(StartupEvent::ReflectionBuilt),
        s.step(StartupEvent::BindFailed),
    ];
    actions.push(s.step(StartupEvent::StatusPublished));
    actions.push(s.step(StartupEvent::Bound));
    assert_eq!(actions[3], StartupAction::Exit(ServerError::BindError));
    assert!(!actions.contains(&StartupAction::Accept));
    assert_eq!(actions[4], StartupAction::Nothing);
    assert_eq!(actions[5], StartupAction::Nothing);
    assert_eq!(s.phase(), Phase::Stopped(ServerError::BindError));
    assert_eq!(s.check_health(&business_service_name()), ServingStatus::Unknown);
}

#[test]
fn malformed_descriptor_stops_before_binding() {
    let mut s = Startup::new();
    s.step(StartupEvent::Start);
    s.step(StartupEvent::StatusPublished);
    assert_eq!(
        s.step(StartupEvent::ReflectionRejected),
        StartupAction::Exit(ServerError::MalformedDescriptor)
    );
    assert_eq!(s.step(StartupEvent::Bound), StartupAction::Nothing);
    assert_eq!(s.phase(), Phase::Stopped(ServerError::MalformedDescriptor));
}

#[test]
fn transport_failure_is_fatal() {
    let mut s = started();
    assert_eq!(
        s.step(StartupEvent::TransportFailed),
        StartupAction::Exit(ServerError::TransportFailure)
    );
    assert_eq!(s.phase(), Phase::Stopped(ServerError::TransportFailure));
    assert_eq!(s.step(StartupEvent::Start), StartupAction::Nothing);
}

#[test]
fn out_of_order_events_change_nothing() {
    let mut s = Startup::new();
    assert_eq!(s.step(StartupEvent::Bound), StartupAction::Nothing);
    assert_eq!(s.step(StartupEvent::StatusPublished), StartupAction::Nothing);
    assert_eq!(s.phase(), Phase::Idle);
    s.step(StartupEvent::Start);
    assert_eq!(s.step(StartupEvent::Start), StartupAction::Nothing);
    assert_eq!(s.step(StartupEvent::BindFailed), StartupAction::Nothing);
    assert_eq!(s.phase(), Phase::Registering);
}

#[test]
fn reflection_lists_business_and_health() {
    let names = reflected_service_names();
    assert_eq!(
        names,
        vec![
            "com.github.canardleteer.grpc_service_rs.v1alpha1.SimpleTimestampService".to_string(),
            "grpc.health.v1.Health".to_string(),
        ]
    );
    assert_eq!(
        descriptor_sources(),
        vec![DescriptorSource::TimeService, DescriptorSource::HealthCheck]
    );
    assert_eq!(DescriptorSource::HealthCheck.service_name(), "grpc.health.v1.Health");
    assert_eq!(DescriptorSource::TimeService.service_name(), business_service_name());
}

#[test]
fn registry_register_is_idempotent() {
    let mut r = HealthRegistry::new();
    assert_eq!(r.check("a"), ServingStatus::ServiceNotFound);
    r.register("a");
    assert_eq!(r.check("a"), ServingStatus::Unknown);
    r.set_status("a", ServingStatus::Serving);
    r.register("a");
    assert_eq!(r.check("a"), ServingStatus::Serving);
    assert_eq!(r.check("b"), ServingStatus::ServiceNotFound);
}

#[test]
fn registry_set_status_upserts() {
    let mut r = HealthRegistry::new();
    r.set_status("x", ServingStatus::NotServing);
    assert_eq!(r.check("x"), ServingStatus::NotServing);
    r.register("y");
    r.set_status("x", ServingStatus::Serving);
    assert_eq!(r.check("x"), ServingStatus::Serving);
    assert_eq!(r.check("y"), ServingStatus::Unknown);
    r.set_status("y", ServingStatus::NotServing);
    assert_eq!(r.check("y"), ServingStatus::NotServing);
    assert_eq!(r.check("x"), ServingStatus::Serving);
    assert_eq!(r.check("xy"), ServingStatus::ServiceNotFound);
}
