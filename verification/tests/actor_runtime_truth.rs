//! The introspection root answers a prototype witness, and reads a live
//! router's summary reply as the router position.

use introspect::runtime::{
    IntrospectionRoot, RootStep, RouterClient, RouterFrameBody, RouterOutput, RouterSubReply,
    RouterSummary, StepOutcome,
};
use introspect::wire::{ComponentReadiness, PrototypeWitnessObservationQuery, Query, Response};
use introspect::error::Error;
use introspect::runtime::{prefix_length, RouterClientFrameCodec, RouterStep};
use introspect::wire::{BootIdentifier, FlushSystemEvents, SystemEventsQuery};

fn witness_query() -> PrototypeWitnessObservationQuery {
    PrototypeWitnessObservationQuery {
        engine_identifier: "prototype".to_owned(),
    }
}

fn summary_reply(engine: &str) -> RouterFrameBody {
    RouterFrameBody::Accepted {
        head: RouterSubReply::Answered(RouterOutput::Summary(RouterSummary {
            engine: engine.to_owned(),
        })),
    }
}

#[test]
fn prototype_witness_uses_introspection_root_actor() {
    let mut root = IntrospectionRoot::new();
    let step = root.plan(Query::PrototypeWitnessObservation(witness_query()));
    let RootStep::QueryRouterSummary(engine) = step else {
        panic!("expected a router summary step, got {step:?}");
    };
    let response = IntrospectionRoot::complete(StepOutcome::RouterReadiness {
        engine,
        readiness: None,
    });

    match response {
        Response::PrototypeWitnessObservation(witness) => {
            assert_eq!(witness.engine_identifier, "prototype");
            assert_eq!(witness.delivery_trace_observation_status_option, None);
        }
        other => panic!("expected PrototypeWitnessObservation, got {other:?}"),
    }
    assert_eq!(root.handled_queries(), 1);
}

#[test]
fn prototype_witness_queries_live_router_summary_socket() {
    let mut root = IntrospectionRoot::new();
    let RootStep::QueryRouterSummary(engine) =
        root.plan(Query::PrototypeWitnessObservation(witness_query()))
    else {
        panic!("expected a router summary step");
    };
    let readiness = RouterClient::router_summary_readiness(&engine, summary_reply("prototype"))
        .expect("router summary reply reads as readiness");
    let response = IntrospectionRoot::complete(StepOutcome::RouterReadiness { engine, readiness });
    match response {
        Response::PrototypeWitnessObservation(witness) => {
            assert_eq!(witness.engine_identifier, "prototype");
            assert_eq!(witness.first_optional_component_readiness, None);
            assert_eq!(
                witness.second_optional_component_readiness,
                Some(ComponentReadiness::Ready)
            );
            assert_eq!(witness.third_optional_component_readiness, None);
        }
        other => panic!("expected PrototypeWitnessObservation, got {other:?}"),
    }
}

#[test]
fn router_reply_for_another_engine_is_not_ready() {
    let readiness =
        RouterClient::router_summary_readiness(&"prototype".to_owned(), summary_reply("other"));
    assert_eq!(readiness, Ok(Some(ComponentReadiness::NotReady)));
}

#[test]
fn router_without_summary_leaves_the_position_unseen() {
    let readiness = RouterClient::router_summary_readiness(
        &"prototype".to_owned(),
        RouterFrameBody::Accepted {
            head: RouterSubReply::Answered(RouterOutput::Unimplemented),
        },
    );
    assert_eq!(readiness, Ok(None));
}

#[test]
fn unexpected_router_replies_are_errors_carrying_their_text() {
    let expected = "prototype".to_owned();
    let cases = [
        (
            RouterFrameBody::Rejected {
                reason: "no such engine".to_owned(),
            },
            "no such engine",
        ),
        (
            RouterFrameBody::Other {
                detail: "Request".to_owned(),
            },
            "Request",
        ),
        (
            RouterFrameBody::Accepted {
                head: RouterSubReply::Failed {
                    detail: "Failed".to_owned(),
                },
            },
            "Failed",
        ),
        (
            RouterFrameBody::Accepted {
                head: RouterSubReply::Answered(RouterOutput::Other {
                    detail: "ChannelState".to_owned(),
                }),
            },
            "ChannelState",
        ),
    ];
    for (frame, text) in cases {
        assert_eq!(
            RouterClient::router_summary_readiness(&expected, frame),
            Err(Error::UnexpectedRouterObservationReply {
                got: text.to_owned()
            })
        );
    }
}

#[test]
fn router_frame_length_is_bounded() {
    assert_eq!(prefix_length([0, 0, 1, 2]), 258);
    assert_eq!(prefix_length([1, 0, 0, 0]), 16_777_216);
    let codec = RouterClientFrameCodec::new(300);
    assert_eq!(codec.admitted_length([0, 0, 1, 2]), Ok(258));
    assert_eq!(
        codec.admitted_length([0, 0, 1, 45]),
        Err(Error::UnexpectedSignalFrame {
            got: "router frame exceeds 300 bytes".to_owned()
        })
    );
    assert_eq!(
        RouterClientFrameCodec::default().admitted_length([0, 16, 0, 0]),
        Ok(1_048_576)
    );
}

#[test]
fn handled_count_skips_system_event_records_and_flushes() {
    let mut root = IntrospectionRoot::new();
    let boot = BootIdentifier {
        first_integer: 1,
        second_integer: 2,
    };
    root.plan(Query::FlushSystemEvents(FlushSystemEvents { boot_identifier: boot }));
    assert_eq!(root.handled_queries(), 0);
    root.plan(Query::SystemEvents(SystemEventsQuery {
        boot_identifier: boot,
        system_event_domain_option: None,
    }));
    assert_eq!(root.handled_queries(), 1);
    assert!(IntrospectionRoot::should_record(&Query::FlushSystemEvents(
        FlushSystemEvents { boot_identifier: boot }
    )));
}

#[test]
fn unconfigured_router_leaves_the_witness_unseen() {
    let mut root = IntrospectionRoot::new();
    let engine = match root.plan(Query::PrototypeWitnessObservation(witness_query())) {
        RootStep::QueryRouterSummary(engine) => engine,
        other => panic!("expected a router summary step, got {other:?}"),
    };
    let readiness = match RouterClient::new(None).summary_step() {
        RouterStep::Settled(readiness) => readiness,
        other => panic!("expected no exchange without a router socket, got {other:?}"),
    };
    assert_eq!(readiness, None);
    match IntrospectionRoot::complete(StepOutcome::RouterReadiness { engine, readiness }) {
        Response::PrototypeWitnessObservation(witness) => {
            assert_eq!(witness.engine_identifier, "prototype");
            assert_eq!(witness.first_optional_component_readiness, None);
            assert_eq!(witness.second_optional_component_readiness, None);
            assert_eq!(witness.third_optional_component_readiness, None);
            assert_eq!(witness.delivery_trace_observation_status_option, None);
        }
        other => panic!("expected prototype witness, got {other:?}"),
    }
    assert_eq!(
        RouterClient::new(Some("/tmp/router.sock".to_owned())).summary_step(),
        RouterStep::Ask("/tmp/router.sock".to_owned())
    );
}
