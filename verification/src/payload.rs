//! The notification payload and its wire text.

use vstd::prelude::*;
use vstd::string::StringExecFns;
use crate::json::{json_string_text, object_text, quoted, string_object};

verus! {

/// A notification for the connected peer: a tag and the fields that belong to
/// that tag.
#[derive(Debug, PartialEq, Eq)]
pub enum Payload {
    /// The image behind `image_url` has changed.
    ImageUpdate { image_url: String },
}

/// The mathematical value of a [`Payload`].
pub enum PayloadView {
    ImageUpdate { image_url: Seq<char> },
}

impl View for Payload {
    type V = PayloadView;

    open spec fn view(&self) -> PayloadView {
        match self {
            Payload::ImageUpdate { image_url } => PayloadView::ImageUpdate { image_url: image_url@ },
        }
    }
}

impl PayloadView {
    /// The value of the `type` member on the wire.
    pub open spec fn tag(self) -> Seq<char> {
        match self {
            PayloadView::ImageUpdate { .. } => "imageUpdate"@,
        }
    }

    /// The key of the member that carries the tag's own field.
    pub open spec fn field_key(self) -> Seq<char> {
        match self {
            PayloadView::ImageUpdate { .. } => "imageUrl"@,
        }
    }

    /// The value of the tag's own field.
    pub open spec fn field_value(self) -> Seq<char> {
        match self {
            PayloadView::ImageUpdate { image_url } => image_url,
        }
    }

    /// The text frame that carries this payload over the data channel: a JSON
    /// object with the member `type`, which holds the tag, and the member of
    /// the tag's field.
    pub open spec fn wire_text(self) -> Seq<char> {
        object_text(
            quoted("type"@),
            quoted(self.tag()),
            quoted(self.field_key()),
            json_string_text(self.field_value()),
        )
    }
}

impl Payload {
    /// The payload that announces a new image at `image_url`.
    pub fn image_update(image_url: &str) -> (payload: Payload)
        ensures
            payload@ == (PayloadView::ImageUpdate { image_url: image_url@ }),
    {
        Payload::ImageUpdate { image_url: String::from_str(image_url) }
    }

    /// The tag of this payload.
    pub fn tag(&self) -> (tag: &'static str)
        ensures
            tag@ == self@.tag(),
    {
        match self {
            Payload::ImageUpdate { .. } => "imageUpdate",
        }
    }

    /// Serialises the payload to the text that is sent.
    pub fn encode(&self) -> (text: String)
        ensures
            text@ == self@.wire_text(),
    {
        proof {
            reveal_strlit("type");
            reveal_strlit("imageUpdate");
            reveal_strlit("imageUrl");
        }
        match self {
            Payload::ImageUpdate { image_url } => {
                string_object("type", "imageUpdate", "imageUrl", image_url.as_str())
            },
        }
    }
}

} // verus!
