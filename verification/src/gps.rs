//! GPS receivers.

use crate::card::{inactive_attr, inactive_attr_text};
use crate::device::{Device, DeviceAnc};
use crate::html::{escape, escaped};
use crate::item::{code_text, ItemState};
use crate::naming::{decimal, decimal_text};
use crate::text::text_opt;
use vstd::prelude::*;
use vstd::string::StringExecFns;

verus! {

/// GPS
#[derive(Debug, PartialEq, Eq)]
pub struct Gps {
    pub name: String,
    pub controller: Option<String>,
    pub notes: Option<String>,
    // secondary attributes
    pub pin: Option<u32>,
}

/// What a GPS record says.
pub struct GpsView {
    pub name: Seq<char>,
    pub controller: Option<Seq<char>>,
    pub notes: Option<Seq<char>>,
    pub pin: Option<u32>,
}

impl View for Gps {
    type V = GpsView;

    open spec fn view(&self) -> GpsView {
        GpsView {
            name: self.name@,
            controller: text_opt(self.controller),
            notes: text_opt(self.notes),
            pin: self.pin,
        }
    }
}

impl Device for Gps {
    open spec fn controller_view(&self) -> Option<Seq<char>> {
        text_opt(self.controller)
    }

    /// Get controller
    fn controller(&self) -> (r: Option<&str>) {
        match &self.controller {
            Some(c) => Some(c.as_str()),
            None => None,
        }
    }
}

/// An optional number as it stands in a form: in decimal, or empty.
pub open spec fn opt_val_text(val: Option<u32>) -> Seq<char> {
    match val {
        Some(v) => decimal(v as nat),
        None => Seq::empty(),
    }
}

/// The compact card of a GPS: its name, made safe for HTML, and the sign
/// of its state; marked inactive where it has no controller.
pub open spec fn compact_html(pri: GpsView, state: ItemState) -> Seq<char> {
    "<div class='end"@ + inactive_attr_text(pri.controller is Some) + "'>"@ + escaped(pri.name)
        + " "@ + code_text(state) + "</div>"@
}

/// The setup card of a GPS: below its title, the controller row and the
/// pin.
pub open spec fn setup_html(title: Seq<char>, controller: Seq<char>, pin: Option<u32>) -> Seq<
    char,
> {
    title + controller + "<div class='row'>\
              <label for='pin'>Pin</label>\
              <input id='pin' type='number' min='1' max='104' \
                     size='8' value='"@
        + opt_val_text(pin) + "'>\
            </div>"@
}

impl Gps {
    /// Convert to Compact HTML
    pub fn to_html_compact(&self, anc: &DeviceAnc<Gps>) -> (r: String)
        ensures
            r@ == compact_html(self@, anc@.state(self.controller_view())),
    {
        let name = escape(self.name());
        let inactive = inactive_attr(self.controller.is_some());
        let item_state = anc.item_state(self);
        let mut html = String::from_str("<div class='end");
        html.append(inactive);
        html.append("'>");
        html.append(name.as_str());
        html.append(" ");
        html.append(item_state.code());
        html.append("</div>");
        html
    }

    /// Convert to Setup HTML, below the title of the card
    pub fn to_html_setup(&self, title: &str, anc: &DeviceAnc<Gps>) -> (r: String)
        ensures
            r@ == setup_html(title@, anc@.row_html(), self@.pin),
    {
        let controller = anc.controller_html();
        let pin = match self.pin {
            Some(v) => decimal_text(v as u64),
            None => String::new(),
        };
        let mut html = String::from_str(title);
        html.append(controller.as_str());
        html.append(
            "<div class='row'>\
              <label for='pin'>Pin</label>\
              <input id='pin' type='number' min='1' max='104' \
                     size='8' value='",
        );
        html.append(pin.as_str());
        html.append(
            "'>\
            </div>",
        );
        html
    }

    /// Get the name
    pub fn name(&self) -> (r: &str)
        ensures
            r@ == self@.name,
    {
        self.name.as_str()
    }

    /// Set the name
    pub fn with_name(self, name: &str) -> (r: Gps)
        ensures
            r@ == (GpsView { name: name@, ..self@ }),
    {
        let mut gps = self;
        gps.name = name.to_owned();
        gps
    }
}

} // verus!
