//! Devices for controller IO, and the controller data that comes with
//! their cards.

use crate::controller::{Controller, ControllerView};
use crate::html::{escape, escaped};
use crate::item::ItemState;
use crate::lookup::{find, names_of, position};
use crate::text::str_opt;
use core::marker::PhantomData;
use vstd::prelude::*;
use vstd::string::StringExecFns;

verus! {

/// Device requests
#[derive(Clone, Copy, Debug, PartialEq, Eq, Structural)]
#[allow(dead_code)]
pub enum DeviceReq {
    NoRequest,
    QueryConfiguration,
    QuerySettings,
    SendSettings,
    QueryMessage,
    QueryStatus,
    QueryPixelFailures,
    TestPixels,
    TestFans,
    TestLamps,
    BrightnessGood,
    BrightnessTooDim,
    BrightnessTooBright,
    ResetDevice,
    ResetStatus,
    QueryGpsLocation,
    DisableSystem,
    CameraFocusStop,
    CameraFocusNear,
    CameraFocusFar,
    CameraFocusManual,
    CameraFocusAuto,
    CameraIrisStop,
    CameraIrisClose,
    CameraIrisOpen,
    CameraIrisManual,
    CameraIrisAuto,
    CameraWiperOneShot,
    CameraWasher,
    CameraPowerOn,
    CameraPowerOff,
    CameraMenuOpen,
    CameraMenuEnter,
    CameraMenuCancel,
}

/// Device resource for controller IO
pub trait Device {
    /// The name of the controller of the device, if it has one.
    spec fn controller_view(&self) -> Option<Seq<char>>;

    /// Get controller
    fn controller(&self) -> (r: Option<&str>)
        ensures
            str_opt(r) == self.controller_view(),
    ;
}

/// Ancillary controller IO device data
#[derive(Debug)]
pub struct DeviceAnc<D> {
    pub pri: PhantomData<D>,
    pub controllers: Option<Vec<Controller>>,
    pub controller: Option<Controller>,
}

/// What a list of controllers says.
pub open spec fn controller_views(list: Seq<Controller>) -> Seq<ControllerView> {
    list.map_values(|c: Controller| c@)
}

/// What the controller data of a device says.
pub struct DeviceAncView {
    pub controllers: Option<Seq<ControllerView>>,
    pub controller: Option<ControllerView>,
}

impl<D> View for DeviceAnc<D> {
    type V = DeviceAncView;

    open spec fn view(&self) -> DeviceAncView {
        DeviceAncView {
            controllers: match self.controllers {
                Some(list) => Some(controller_views(list@)),
                None => None,
            },
            controller: match self.controller {
                Some(c) => Some(c@),
                None => None,
            },
        }
    }
}

impl DeviceAncView {
    /// The controller of a device: the one fetched for it, or else the
    /// first of the fetched list that goes by the name the device gives.
    pub open spec fn find(self, name: Option<Seq<char>>) -> Option<ControllerView> {
        match self.controller {
            Some(c) => Some(c),
            None => match (name, self.controllers) {
                (Some(n), Some(list)) => match position(
                    list.map_values(|c: ControllerView| c.name),
                    n,
                ) {
                    Some(i) => Some(list[i]),
                    None => None,
                },
                _ => None,
            },
        }
    }

    /// The button of the fetched controller, or an empty span.
    pub open spec fn button(self) -> Seq<char> {
        match self.controller {
            Some(c) => c.button,
            None => "<span></span>"@,
        }
    }

    /// The name of the fetched controller, made safe for HTML; empty
    /// without one.
    pub open spec fn name_html(self) -> Seq<char> {
        match self.controller {
            Some(c) => escaped(c.name),
            None => Seq::empty(),
        }
    }

    /// The controller row of a setup form.
    pub open spec fn row_html(self) -> Seq<char> {
        "<div class='row'>\
              <label for='controller'>Controller</label>\
              <input id='controller' maxlength='20' size='20' \
                     value='"@
            + self.name_html() + "'>"@ + self.button() + "</div>"@
    }

    /// The state of a device's item: that of its controller, inactive
    /// without one.
    pub open spec fn state(self, name: Option<Seq<char>>) -> ItemState {
        match self.find(name) {
            Some(c) => c.state,
            None => ItemState::Inactive,
        }
    }
}

/// What an optional controller says.
pub open spec fn controller_opt(c: Option<&Controller>) -> Option<ControllerView> {
    match c {
        Some(x) => Some(x@),
        None => None,
    }
}

impl<D: Device> DeviceAnc<D> {
    /// Controller data with nothing fetched yet.
    pub fn new() -> (r: Self)
        ensures
            r@.controllers is None,
            r@.controller is None,
    {
        DeviceAnc { pri: PhantomData, controllers: None, controller: None }
    }

    /// Find controller
    pub fn controller(&self, pri: &D) -> (r: Option<&Controller>)
        ensures
            controller_opt(r) == self@.find(pri.controller_view()),
    {
        if let Some(ctrl) = &self.controller {
            return Some(ctrl);
        }
        if let (Some(ctrl), Some(controllers)) = (pri.controller(), &self.controllers) {
            proof {
                assert(names_of(controllers@) =~= controller_views(controllers@).map_values(
                    |c: ControllerView| c.name,
                ));
            }
            if let Some(i) = find(controllers, ctrl) {
                return Some(&controllers[i]);
            }
        }
        None
    }

    /// Make controller button
    pub fn controller_button(&self) -> (r: String)
        ensures
            r@ == self@.button(),
    {
        match &self.controller {
            Some(ctrl) => ctrl.button_html(),
            None => String::from_str("<span></span>"),
        }
    }

    /// Make controller row as HTML
    pub fn controller_html(&self) -> (r: String)
        ensures
            r@ == self@.row_html(),
    {
        let ctl_btn = self.controller_button();
        let controller = match &self.controller {
            Some(c) => escape(c.name.as_str()),
            None => String::new(),
        };
        let mut html = String::from_str(
            "<div class='row'>\
              <label for='controller'>Controller</label>\
              <input id='controller' maxlength='20' size='20' \
                     value='",
        );
        html.append(controller.as_str());
        html.append("'>");
        html.append(ctl_btn.as_str());
        html.append("</div>");
        html
    }

    /// Get item state
    pub fn item_state(&self, pri: &D) -> (r: ItemState)
        ensures
            r == self@.state(pri.controller_view()),
    {
        match self.controller(pri) {
            Some(c) => c.item_state(),
            None => ItemState::Inactive,
        }
    }
}

} // verus!
