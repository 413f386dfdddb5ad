use iris_core::card::{inactive_attr, CardView};
use iris_core::controller::Controller;
use iris_core::device::{Device, DeviceAnc, DeviceReq};
use iris_core::geoloc::{assets_for, Asset, Direction, Road, RoadModifier};
use iris_core::gps::Gps;
use iris_core::html::escape;
use iris_core::item::ItemState;
use iris_core::lcsarray::{LcsArray, LcsArrayAnc, LcsLock};
use iris_core::lookup::find;
use iris_core::naming::{decimal_text, name_of_serial};
use iris_core::text::{same_text, text_at_most};
use iris_core::weather::{cloud_situation, dir_arrow, precip_situation, vis_situation};

fn controller(name: &str, state: ItemState) -> Controller {
    Controller {
        name: name.to_string(),
        state,
        button: format!("<button data-link='{name}'>go</button>"),
    }
}

fn gps(name: &str, ctrl: Option<&str>) -> Gps {
    Gps { name: name.to_string(), controller: ctrl.map(|c| c.to_string()), notes: None, pin: None }
}

fn array(name: &str, lcs_lock: Option<u32>) -> LcsArray {
    LcsArray { name: name.to_string(), notes: None, lcs_lock, shift: None }
}

fn locks() -> LcsArrayAnc {
    LcsArrayAnc {
        locks: Some(vec![
            LcsLock { id: 1, description: "Incident".to_string() },
            LcsLock { id: 2, description: "Maintenance".to_string() },
            LcsLock { id: 2, description: "Second".to_string() },
            LcsLock { id: 3, description: "<Testing>".to_string() },
        ]),
    }
}

#[test]
fn escape_replaces_the_special_characters() {
    assert_eq!(escape(""), "");
    assert_eq!(escape("plain text"), "plain text");
    assert_eq!(escape("a<b>c"), "a&lt;b&gt;c");
    assert_eq!(escape("R&D"), "R&amp;D");
    assert_eq!(escape("\"it's\""), "&quot;it&#x27;s&quot;");
    assert_eq!(escape("&amp;"), "&amp;amp;");
    assert_eq!(escape("é<🌐>"), "é&lt;🌐&gt;");
}

#[test]
fn device_without_controller_is_inactive() {
    let anc: DeviceAnc<Gps> = DeviceAnc::new();
    assert_eq!(anc.item_state(&gps("g1", None)), ItemState::Inactive);
    assert_eq!(anc.item_state(&gps("g1", Some("c1"))), ItemState::Inactive);
    assert!(anc.controller(&gps("g1", Some("c1"))).is_none());
}

#[test]
fn device_takes_the_fetched_controller_first() {
    let mut anc: DeviceAnc<Gps> = DeviceAnc::new();
    anc.controller = Some(controller("c9", ItemState::Offline));
    anc.controllers = Some(vec![controller("c1", ItemState::Available)]);
    assert_eq!(anc.controller(&gps("g1", Some("c1"))).unwrap().name, "c9");
    assert_eq!(anc.item_state(&gps("g1", Some("c1"))), ItemState::Offline);
    assert_eq!(anc.item_state(&gps("g1", None)), ItemState::Offline);
}

#[test]
fn device_finds_its_controller_in_the_list() {
    let mut anc: DeviceAnc<Gps> = DeviceAnc::new();
    anc.controllers = Some(vec![
        controller("c1", ItemState::Offline),
        controller("c2", ItemState::Available),
        controller("c2", ItemState::Inactive),
    ]);
    assert_eq!(anc.item_state(&gps("g1", Some("c2"))), ItemState::Available);
    assert_eq!(anc.item_state(&gps("g1", Some("c1"))), ItemState::Offline);
    assert_eq!(anc.item_state(&gps("g1", Some("c3"))), ItemState::Inactive);
    assert_eq!(anc.item_state(&gps("g1", None)), ItemState::Inactive);
    let g = gps("g1", Some("c2"));
    assert_eq!(anc.controller(&g).unwrap().state, ItemState::Available);
}

#[test]
fn controller_button_without_controller_is_an_empty_span() {
    let mut anc: DeviceAnc<Gps> = DeviceAnc::new();
    assert_eq!(anc.controller_button(), "<span></span>");
    anc.controllers = Some(vec![controller("c1", ItemState::Available)]);
    assert_eq!(anc.controller_button(), "<span></span>");
    anc.controller = Some(controller("c1", ItemState::Available));
    assert_eq!(anc.controller_button(), "<button data-link='c1'>go</button>");
}

#[test]
fn controller_html_without_controller() {
    let anc: DeviceAnc<Gps> = DeviceAnc::new();
    assert_eq!(
        anc.controller_html(),
        "<div class='row'><label for='controller'>Controller</label>\
         <input id='controller' maxlength='20' size='20' value=''><span></span></div>"
    );
}

#[test]
fn controller_html_escapes_the_name() {
    let mut anc: DeviceAnc<Gps> = DeviceAnc::new();
    anc.controller = Some(Controller {
        name: "c'<1>".to_string(),
        state: ItemState::Available,
        button: "<button>go</button>".to_string(),
    });
    assert_eq!(
        anc.controller_html(),
        "<div class='row'><label for='controller'>Controller</label>\
         <input id='controller' maxlength='20' size='20' value='c&#x27;&lt;1&gt;'>\
         <button>go</button></div>"
    );
}

#[test]
fn controller_answers_as_it_holds() {
    let c = controller("c1", ItemState::Offline);
    assert_eq!(c.item_state(), ItemState::Offline);
    assert_eq!(c.button_html(), "<button data-link='c1'>go</button>");
}

#[test]
fn gps_names_its_controller() {
    assert_eq!(gps("g1", Some("c1")).controller(), Some("c1"));
    assert_eq!(gps("g1", None).controller(), None);
    assert_eq!(gps("g1", None).name(), "g1");
    let g = Gps { name: "a".to_string(), controller: None, notes: Some("n".to_string()), pin: Some(4) };
    let g = g.with_name("b");
    assert_eq!(
        g,
        Gps { name: "b".to_string(), controller: None, notes: Some("n".to_string()), pin: Some(4) }
    );
}

#[test]
fn gps_compact_html() {
    let mut anc: DeviceAnc<Gps> = DeviceAnc::new();
    assert_eq!(
        gps("g<1>", None).to_html_compact(&anc),
        "<div class='end inactive'>g&lt;1&gt; ▪️</div>"
    );
    assert_eq!(gps("g2", Some("c1")).to_html_compact(&anc), "<div class='end'>g2 ▪️</div>");
    anc.controllers = Some(vec![
        controller("c1", ItemState::Available),
        controller("c2", ItemState::Offline),
    ]);
    assert_eq!(gps("g2", Some("c1")).to_html_compact(&anc), "<div class='end'>g2 👍</div>");
    assert_eq!(gps("g2", Some("c2")).to_html_compact(&anc), "<div class='end'>g2 🔌</div>");
}

#[test]
fn gps_setup_html() {
    let anc: DeviceAnc<Gps> = DeviceAnc::new();
    let mut g = gps("g1", None);
    assert_eq!(
        g.to_html_setup("<h1>g1</h1>", &anc),
        "<h1>g1</h1>\
         <div class='row'><label for='controller'>Controller</label>\
         <input id='controller' maxlength='20' size='20' value=''><span></span></div>\
         <div class='row'><label for='pin'>Pin</label>\
         <input id='pin' type='number' min='1' max='104' size='8' value=''></div>"
    );
    g.pin = Some(104);
    let html = g.to_html_setup("", &anc);
    assert!(html.ends_with("min='1' max='104' size='8' value='104'></div>"));
    assert!(html.starts_with("<div class='row'><label for='controller'>"));
}

#[test]
fn item_state_codes() {
    assert_eq!(ItemState::Available.code(), "👍");
    assert_eq!(ItemState::Offline.code(), "🔌");
    assert_eq!(ItemState::Inactive.code(), "▪️");
    assert_eq!(inactive_attr(true), "");
    assert_eq!(inactive_attr(false), " inactive");
}

#[test]
fn assets_for_each_view() {
    let loc = Asset::GeoLoc("loc1".to_string());
    assert_eq!(assets_for(Some("loc1"), CardView::Control), vec![loc.clone()]);
    assert_eq!(
        assets_for(Some("loc1"), CardView::Location),
        vec![loc, Asset::Directions, Asset::Roads, Asset::RoadModifiers]
    );
    for view in [
        CardView::Hidden,
        CardView::Search,
        CardView::Create,
        CardView::Compact,
        CardView::Setup,
        CardView::Status,
    ] {
        assert!(assets_for(Some("loc1"), view).is_empty());
    }
    assert!(assets_for(None, CardView::Control).is_empty());
    assert!(assets_for(None, CardView::Location).is_empty());
}

#[test]
fn lock_gives_the_first_description() {
    let anc = locks();
    assert_eq!(anc.lock(&array("a", Some(1))), "Incident");
    assert_eq!(anc.lock(&array("a", Some(2))), "Maintenance");
    assert_eq!(anc.lock(&array("a", Some(3))), "<Testing>");
    assert_eq!(anc.lock(&array("a", Some(4))), "");
    assert_eq!(anc.lock(&array("a", None)), "");
    assert_eq!(LcsArrayAnc::new().lock(&array("a", Some(1))), "");
    assert_eq!(LcsArrayAnc { locks: Some(Vec::new()) }.lock(&array("a", Some(1))), "");
}

#[test]
fn lcs_array_compact_html() {
    let anc = locks();
    assert_eq!(
        array("L<1>", Some(2)).to_html_compact(&anc),
        "<div class='title row'><span>L&lt;1&gt;</span><span>Maintenance</span></div>"
    );
    assert_eq!(
        array("L2", None).to_html_compact(&anc),
        "<div class='title row'><span>L2</span><span></span></div>"
    );
    // the description is written as it is
    assert_eq!(
        array("L3", Some(3)).to_html_compact(&anc),
        "<div class='title row'><span>L3</span><span><Testing></span></div>"
    );
}

#[test]
fn lcs_array_control_html() {
    let anc = locks();
    assert_eq!(
        array("L1", Some(1)).to_html_control("<div class='title'>L1</div>", &anc),
        "<div class='title'>L1</div><div class='row'><span class='info'>Incident</span></div>"
    );
    assert_eq!(
        array("L1", Some(9)).to_html_control("", &anc),
        "<div class='row'><span class='info'></span></div>"
    );
}

#[test]
fn lcs_array_name() {
    let a = LcsArray { name: "a".to_string(), notes: None, lcs_lock: Some(1), shift: Some(2) };
    assert_eq!(a.name(), "a");
    let b = a.with_name("b");
    assert_eq!(b, LcsArray { name: "b".to_string(), notes: None, lcs_lock: Some(1), shift: Some(2) });
}

#[test]
fn dir_arrow_at_the_edges() {
    assert_eq!(dir_arrow(0), Some("N ↓"));
    assert_eq!(dir_arrow(22), Some("N ↓"));
    assert_eq!(dir_arrow(23), Some("NE ↙"));
    assert_eq!(dir_arrow(67), Some("NE ↙"));
    assert_eq!(dir_arrow(68), Some("E ←"));
    assert_eq!(dir_arrow(112), Some("E ←"));
    assert_eq!(dir_arrow(113), Some("SE ↖"));
    assert_eq!(dir_arrow(157), Some("SE ↖"));
    assert_eq!(dir_arrow(158), Some("S ↑"));
    assert_eq!(dir_arrow(202), Some("S ↑"));
    assert_eq!(dir_arrow(203), Some("SW ↗"));
    assert_eq!(dir_arrow(247), Some("SW ↗"));
    assert_eq!(dir_arrow(248), Some("W →"));
    assert_eq!(dir_arrow(292), Some("W →"));
    assert_eq!(dir_arrow(293), Some("NW ↘"));
    assert_eq!(dir_arrow(337), Some("NW ↘"));
    assert_eq!(dir_arrow(338), Some("N ↓"));
    assert_eq!(dir_arrow(360), Some("N ↓"));
    assert_eq!(dir_arrow(361), None);
    assert_eq!(dir_arrow(u32::MAX), None);
}

#[test]
fn vis_situation_wording() {
    assert_eq!(vis_situation("other"), "⛆ other visibility anomaly");
    assert_eq!(vis_situation("clear"), "🔭 clear");
    assert_eq!(vis_situation("fogNotPatchy"), "🌫️ fog");
    assert_eq!(vis_situation("patchyFog"), "🌁 patchy fog");
    assert_eq!(vis_situation("blowingSnow"), "❄️ snow");
    assert_eq!(vis_situation("smoke"), "🚬 smoke");
    assert_eq!(vis_situation("seaSpray"), "💦 sea spray");
    assert_eq!(vis_situation("vehicleSpray"), "💦 spray");
    assert_eq!(vis_situation("blowingDustOrSand"), "💨 dust");
    assert_eq!(vis_situation("sunGlare"), "🕶️ sun glare");
    assert_eq!(vis_situation("swarmOfInsects"), "🦗 swarm");
    assert_eq!(vis_situation("unknown"), "Atmosphere");
    assert_eq!(vis_situation("Clear"), "Atmosphere");
    assert_eq!(vis_situation(""), "Atmosphere");
}

#[test]
fn precip_situation_wording() {
    assert_eq!(precip_situation("noPrecipitation"), "🌂 No Precipitation");
    assert_eq!(precip_situation("unidentifiedSlight"), "🌧️ Slight precipitation");
    assert_eq!(precip_situation("unidentifiedModerate"), "🌧️ Moderate precipitation");
    assert_eq!(precip_situation("unidentifiedHeavy"), "🌧️ Heavy precipitation");
    assert_eq!(precip_situation("snowSlight"), "🌨️ Slight snow");
    assert_eq!(precip_situation("snowModerate"), "🌨️ Moderate snow");
    assert_eq!(precip_situation("snowHeavy"), "🌨️ Heavy snow");
    assert_eq!(precip_situation("rainSlight"), "🌧️ Slight rain");
    assert_eq!(precip_situation("rainModerate"), "🌧️ Moderate rain");
    assert_eq!(precip_situation("rainHeavy"), "🌧️ Heavy rain");
    assert_eq!(precip_situation("frozenPrecipitationSlight"), "🧊 Slight sleet");
    assert_eq!(precip_situation("frozenPrecipitationModerate"), "🧊 Moderate sleet");
    assert_eq!(precip_situation("frozenPrecipitationHeavy"), "🧊 Heavy sleet");
    assert_eq!(precip_situation("unknown"), "🌧️ Precipitation");
    assert_eq!(precip_situation("rain"), "🌧️ Precipitation");
}

#[test]
fn cloud_situation_wording() {
    assert_eq!(cloud_situation("overcast"), "☁️ Overcast");
    assert_eq!(cloud_situation("cloudy"), "🌥️ Mostly cloudy");
    assert_eq!(cloud_situation("partlyCloudy"), "⛅ Partly cloudy");
    assert_eq!(cloud_situation("mostlyClear"), "🌤️ Mostly clear");
    assert_eq!(cloud_situation("clear"), "☀️ Clear");
    assert_eq!(cloud_situation("other"), "☁️ Unknown");
    assert_eq!(cloud_situation(""), "☁️ Unknown");
}

#[test]
fn same_text_compares_whole_texts() {
    assert!(same_text("", ""));
    assert!(same_text("beacon", "beacon"));
    assert!(!same_text("beacon", "beaco"));
    assert!(!same_text("beacon", "beacom"));
    assert!(!same_text("", "a"));
    assert!(same_text("é🌐", "é🌐"));
    assert!(!same_text("é", "e"));
}

#[test]
fn text_at_most_orders_by_bytes() {
    assert!(text_at_most("", ""));
    assert!(text_at_most("", "a"));
    assert!(!text_at_most("a", ""));
    assert!(text_at_most("a", "a"));
    assert!(text_at_most("a", "ab"));
    assert!(!text_at_most("ab", "a"));
    assert!(text_at_most("ab", "b"));
    assert!(!text_at_most("b", "ab"));
    assert!(text_at_most("Z", "a"));
    assert!(!text_at_most("a", "Z"));
    assert!(text_at_most("z", "é"));
    assert!(!text_at_most("é", "z"));
    for (a, b) in [("x", "y"), ("beacon", "camera"), ("#a", "#b"), ("10", "9")] {
        assert_eq!(text_at_most(a, b), a <= b);
        assert_eq!(text_at_most(b, a), b <= a);
    }
}

#[test]
fn decimal_text_writes_numbers() {
    assert_eq!(decimal_text(0), "0");
    assert_eq!(decimal_text(7), "7");
    assert_eq!(decimal_text(10), "10");
    assert_eq!(decimal_text(1234567890), "1234567890");
    assert_eq!(decimal_text(u64::MAX), "18446744073709551615");
    assert_eq!(name_of_serial(1), "prm_1");
    assert_eq!(name_of_serial(305), "prm_305");
}

#[test]
fn find_gives_the_first_place() {
    let list = vec![
        controller("a", ItemState::Available),
        controller("b", ItemState::Available),
        controller("b", ItemState::Offline),
    ];
    assert_eq!(find(&list, "a"), Some(0));
    assert_eq!(find(&list, "b"), Some(1));
    assert_eq!(find(&list, "c"), None);
    assert_eq!(find(&Vec::<Controller>::new(), "a"), None);
}

#[test]
fn plain_records_hold_their_fields() {
    let road = Road { name: "I-94".to_string(), abbrev: "94".to_string(), r_class: 1, direction: 3 };
    assert_eq!(road.name, "I-94");
    assert_eq!(road.abbrev, "94");
    assert_eq!((road.r_class, road.direction), (1, 3));
    let dir = Direction { id: 1, direction: "North".to_string(), dir: "NB".to_string() };
    assert_eq!((dir.id, dir.direction.as_str(), dir.dir.as_str()), (1, "North", "NB"));
    let md = RoadModifier { id: 2, modifier: "N of".to_string(), md: "N".to_string() };
    assert_eq!((md.id, md.modifier.as_str(), md.md.as_str()), (2, "N of", "N"));
    assert_ne!(DeviceReq::QueryStatus, DeviceReq::ResetDevice);
    assert_eq!(DeviceReq::NoRequest, DeviceReq::NoRequest);
}
