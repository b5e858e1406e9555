//! Every public actor noun is data-bearing.

use introspect::runtime::{
    DatomProjection, IntrospectionRoot, ManagerClient, QueryPlanner, RouterClient,
    TargetDirectory, TerminalClient,
};
use introspect::store::IntrospectionStore;

#[test]
fn public_actor_nouns_carry_data() {
    assert!(std::mem::size_of::<IntrospectionRoot>() > 0);
    assert!(std::mem::size_of::<IntrospectionStore>() > 0);
    assert!(std::mem::size_of::<TargetDirectory>() > 0);
    assert!(std::mem::size_of::<QueryPlanner>() > 0);
    assert!(std::mem::size_of::<ManagerClient>() > 0);
    assert!(std::mem::size_of::<RouterClient>() > 0);
    assert!(std::mem::size_of::<TerminalClient>() > 0);
    assert!(std::mem::size_of::<DatomProjection>() > 0);
}

#[test]
fn peer_clients_hold_their_sockets() {
    assert_eq!(ManagerClient::new(None).socket(), None);
    assert_eq!(
        RouterClient::new(Some("/run/router.sock".to_owned())).socket(),
        Some("/run/router.sock")
    );
    assert_eq!(TerminalClient::new(Some("t".to_owned())).socket(), Some("t"));
    assert_eq!(QueryPlanner::default().planned_queries(), 0);
    assert_eq!(DatomProjection::default().rendered_outputs(), 0);
    let directory = TargetDirectory::new(introspect::runtime::TargetSocketDirectory::empty());
    assert_eq!(directory.sockets().router_socket, None);
}
