//! The CLI edge: the datom argument text, socket settings and the text budget.

use introspect::cli_argument::DatomCommandText;
use introspect::command::IntrospectCommandEnvironment;
use introspect::datom_text::budget;
use introspect::meta::{MetaIntrospectCommandEnvironment, MetaIntrospectEndpoint};

#[test]
fn command_text_and_socket_settings() {
    let text = DatomCommandText::new("PrototypeWitnessObservation.{ prototype }".to_owned());
    assert_eq!(text.as_str(), "PrototypeWitnessObservation.{ prototype }");
    assert_eq!(IntrospectCommandEnvironment::from_setting(None).endpoint(), "/tmp/introspect.sock");
    assert_eq!(
        IntrospectCommandEnvironment::from_setting(Some("/run/i.sock".to_owned())).endpoint(),
        "/run/i.sock"
    );
    assert_eq!(
        MetaIntrospectCommandEnvironment::from_setting(None).endpoint(),
        MetaIntrospectEndpoint::new("/tmp/meta-introspect.sock".to_owned())
    );
    assert_eq!(
        MetaIntrospectCommandEnvironment::new("/m".to_owned()).endpoint().as_path(),
        "/m"
    );
    let fresh = budget();
    assert_eq!(fresh.remaining, 65_536);
    assert_eq!(fresh.reader_remaining, 1_048_576);
    assert_eq!(fresh.depth, 0);
    assert_eq!(fresh.maximum_depth, 256);
}
