//! The versions of the configuration format, and the updates that bring a
//! document from one version to the next.

use vstd::prelude::*;
use crate::config::ConfigDocument;
use crate::config::ConfigDocumentView;
use crate::config::ConfigError;
use crate::config::ConfigErrorView;
use crate::text::text_equals;

verus! {

/// The newest version of the configuration format.
pub const LATEST_CONFIG_VERSION: &'static str = "0.0.2";

/// The number of updates that are registered.
pub const UPDATE_COUNT: usize = 2;

/// The versions of the format, oldest first. Each names the update that
/// brings a document to it from the version before.
pub open spec fn versions() -> Seq<Seq<char>> {
    seq!["0.0.1"@, "0.0.2"@]
}

/// The place of the first update that a document of `version` still needs:
/// every update for a document without a version, the updates after its own
/// for a known version, and none that could be named for an unknown one.
pub open spec fn first_update(version: Option<Seq<char>>) -> Option<nat> {
    match version {
        None => Some(0),
        Some(tag) => if tag == versions()[0] {
            Some(1)
        } else if tag == versions()[1] {
            Some(2)
        } else {
            None
        },
    }
}

/// What the update at `place` does to a document. The first update only
/// marks the first version; the second adds the network interface.
pub open spec fn apply_update(document: ConfigDocumentView, place: nat) -> ConfigDocumentView {
    if place == 1 {
        ConfigDocumentView { network_interface: Some("0.0.0.0"@), ..document }
    } else {
        document
    }
}

/// The document after the updates from `place` on, applied in order.
pub open spec fn apply_updates(document: ConfigDocumentView, place: nat) -> ConfigDocumentView
    decreases UPDATE_COUNT - place,
{
    if place >= UPDATE_COUNT {
        document
    } else {
        apply_updates(apply_update(document, place), place + 1)
    }
}

/// The document in the newest format. A document of the newest version stays
/// as it is; an older one gets the updates that it lacks, in order, and the
/// newest version; one of an unknown version is turned down.
pub open spec fn updated(document: ConfigDocumentView) -> Result<
    ConfigDocumentView,
    ConfigErrorView,
> {
    match first_update(document.config_format_version) {
        Some(place) => Ok(
            ConfigDocumentView {
                config_format_version: Some(LATEST_CONFIG_VERSION@),
                ..apply_updates(document, place)
            },
        ),
        None => Err(ConfigErrorView::UnknownVersion(document.config_format_version->0)),
    }
}

fn update(document: ConfigDocument, place: usize) -> (next: ConfigDocument)
    ensures
        next@ == apply_update(document@, place as nat),
{
    if place == 1 {
        ConfigDocument {
            config_format_version: document.config_format_version,
            working_directiries_path: document.working_directiries_path,
            dedicated_server_dir: document.dedicated_server_dir,
            matchmaker_port: document.matchmaker_port,
            network_interface: Some("0.0.0.0".to_owned()),
        }
    } else {
        document
    }
}

/// Brings a document to the newest version of the format.
pub fn update_config_to_the_latest_version(document: ConfigDocument) -> (result: Result<
    ConfigDocument,
    ConfigError,
>)
    ensures
        match updated(document@) {
            Ok(newest) => result matches Ok(found) && found@ == newest,
            Err(error) => result matches Err(found) && found@ == error,
        },
{
    let first: usize = match &document.config_format_version {
        None => 0,
        Some(tag) => {
            if text_equals(tag.as_str(), "0.0.1") {
                1
            } else if text_equals(tag.as_str(), "0.0.2") {
                2
            } else {
                return Err(ConfigError::UnknownVersion(tag.clone()));
            }
        },
    };
    let ghost start = document@;
    let mut current = document;
    let mut place = first;
    while place < UPDATE_COUNT
        invariant
            place <= UPDATE_COUNT,
            apply_updates(current@, place as nat) == apply_updates(start, first as nat),
        decreases UPDATE_COUNT - place,
    {
        current = update(current, place);
        place = place + 1;
    }
    Ok(
        ConfigDocument {
            config_format_version: Some(LATEST_CONFIG_VERSION.to_owned()),
            working_directiries_path: current.working_directiries_path,
            dedicated_server_dir: current.dedicated_server_dir,
            matchmaker_port: current.matchmaker_port,
            network_interface: current.network_interface,
        },
    )
}

/// A document that was brought to the newest format names the newest
/// version, and bringing it there once more changes nothing.
pub proof fn lemma_updated_is_newest(document: ConfigDocumentView)
    requires
        updated(document) is Ok,
    ensures
        updated(document)->Ok_0.config_format_version == Some(LATEST_CONFIG_VERSION@),
        updated(updated(document)->Ok_0) == updated(document),
{
    reveal_strlit("0.0.1");
    reveal_strlit("0.0.2");
    reveal_with_fuel(apply_updates, 3);
    assert("0.0.2"@[4] != "0.0.1"@[4]);
}

} // verus!
