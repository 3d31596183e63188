use tabview::errors::TabError;
use tabview::decimal::push_decimal;
use tabview::header::compose_header;
use tabview::header::compose_tab_strip;
use tabview::keys::Key;
use tabview::widget::Widget;
use tabview::widget::WidgetCore;
use tabview::tabview::check_names;
use tabview::tabview::TabLogic;
use tabview::tabview::TabView;

const INV: &str = "\u{1b}[7m";
const RST: &str = "\u{1b}[m";
const HC: &str = "\u{1b}[38;5;7m\u{1b}[48;5;4m";

fn names(list: &[&str]) -> Vec<String> {
    list.iter().map(|s| s.to_string()).collect()
}

#[test]
fn decimal_text_is_plain_base_ten() {
    let cases: [(usize, &str); 6] =
        [(0, "0"), (7, "7"), (10, "10"), (99, "99"), (100, "100"), (4242, "4242")];
    for (n, expected) in cases {
        let mut s = String::new();
        push_decimal(&mut s, n);
        assert_eq!(s, expected);
    }
    let mut s = String::from("x=");
    push_decimal(&mut s, usize::MAX);
    assert_eq!(s, format!("x={}", usize::MAX));
}

#[test]
fn strip_highlights_the_active_label() {
    let (strip, plen) = compose_tab_strip(&names(&["a", "b", "c"]), 1);
    let expected = format!(" 0:a {INV}1:b{RST}{HC} 2:c");
    assert_eq!(strip, expected);
    assert_eq!(plen, 12);
}

#[test]
fn strip_of_no_tabs_is_empty() {
    let (strip, plen) = compose_tab_strip(&names(&[]), 0);
    assert_eq!(strip, "");
    assert_eq!(plen, 0);
}

#[test]
fn strip_indices_grow_past_nine() {
    let list: Vec<String> = (0..11).map(|_| "x".to_string()).collect();
    let (strip, plen) = compose_tab_strip(&list, 0);
    assert!(strip.ends_with(" 9:x 10:x"));
    assert!(strip.starts_with(&format!(" {INV}0:x{RST}{HC} 1:x")));
    // Ten one-digit labels of four columns, one two-digit label of five.
    assert_eq!(plen, 45);
}

#[test]
fn header_is_right_justified_against_the_width() {
    let header = compose_header("HDR", &names(&["a", "b", "c"]), 1, 40);
    let expected = format!("HDR{HC}\u{1b}[1;28H 0:a {INV}1:b{RST}{HC} 2:c");
    assert_eq!(header, expected);
    // The strip's twelve printable columns start at column 28 and end
    // flush against the width: 28 + 12 == 40.
    assert!(header.ends_with(" 2:c"));
}

#[test]
fn a_strip_wider_than_the_header_starts_at_column_one() {
    let header = compose_header("H", &names(&["longname"]), 0, 4);
    let expected = format!("H{HC}\u{1b}[1;1H {INV}0:longname{RST}{HC}");
    assert_eq!(header, expected);
}

#[test]
fn check_names_unwraps_a_complete_list() {
    let list = vec![Some("a".to_string()), Some("b".to_string())];
    let unwrapped = check_names(&list, 2).unwrap();
    assert_eq!(unwrapped, vec!["a".to_string(), "b".to_string()]);
}

#[test]
fn check_names_rejects_a_wrong_count() {
    let list = vec![Some("a".to_string())];
    assert!(matches!(check_names(&list, 2), Err(TabError::BadNames)));
    assert!(matches!(check_names(&list, 0), Err(TabError::BadNames)));
}

#[test]
fn check_names_rejects_an_absent_name() {
    let list = vec![Some("a".to_string()), None];
    assert!(matches!(check_names(&list, 2), Err(TabError::BadNames)));
}

struct NamedPane {
    name: String,
    header: String,
}

impl Widget for NamedPane {
    fn get_core(&self) -> Result<&WidgetCore, TabError> {
        Err(TabError::App)
    }
    fn get_core_mut(&mut self) -> Result<&mut WidgetCore, TabError> {
        Err(TabError::App)
    }
    fn render_header(&self) -> Result<String, TabError> {
        if self.header == "fail" {
            Err(TabError::App)
        } else {
            Ok(self.header.clone())
        }
    }
    fn render_footer(&self) -> Result<String, TabError> {
        Ok(String::new())
    }
    fn get_drawlist(&self) -> Result<String, TabError> {
        Ok(String::new())
    }
    fn refresh(&mut self) -> Result<(), TabError> {
        Ok(())
    }
    fn on_key(&mut self, _key: Key) -> Result<(), TabError> {
        Ok(())
    }
}

impl TabLogic for NamedPane {
    fn new_tab(_tv: &mut TabView<NamedPane>) -> Result<(), TabError> {
        Err(TabError::App)
    }
    fn close_tab(tv: &mut TabView<NamedPane>) -> Result<(), TabError> {
        tv.close_tab_()
    }
    fn next_tab(tv: &mut TabView<NamedPane>) -> Result<(), TabError> {
        tv.next_tab_();
        Ok(())
    }
    fn tab_names(tv: &TabView<NamedPane>) -> Vec<Option<String>> {
        tv.widgets.iter().filter(|w| w.name != "skip").map(|w| {
            if w.name == "missing" {
                None
            } else {
                Some(w.name.clone())
            }
        }).collect()
    }
    fn on_key_sub(_tv: &mut TabView<NamedPane>, _key: Key) -> Result<(), TabError> {
        Ok(())
    }
}

fn pane(name: &str, header: &str) -> NamedPane {
    NamedPane { name: name.to_string(), header: header.to_string() }
}

#[test]
fn container_header_overlays_the_strip() {
    let core = WidgetCore::new(40, 24);
    let mut tv: TabView<NamedPane> = TabView::new(&core);
    tv.push_widget(pane("a", "HDR")).unwrap();
    tv.push_widget(pane("b", "HDR")).unwrap();
    tv.push_widget(pane("c", "HDR")).unwrap();
    tv.active = 1;
    let header = tv.render_header().unwrap();
    let expected = format!("HDR{HC}\u{1b}[1;28H 0:a {INV}1:b{RST}{HC} 2:c");
    assert_eq!(header, expected);
}

#[test]
fn container_header_without_panes_is_a_typed_error() {
    let core = WidgetCore::new(40, 24);
    let tv: TabView<NamedPane> = TabView::new(&core);
    assert!(matches!(tv.render_header(), Err(TabError::NoTab)));
}

#[test]
fn a_missing_name_is_a_typed_error() {
    let core = WidgetCore::new(40, 24);
    let mut tv: TabView<NamedPane> = TabView::new(&core);
    tv.push_widget(pane("a", "HDR")).unwrap();
    tv.push_widget(pane("missing", "HDR")).unwrap();
    assert!(matches!(tv.render_header(), Err(TabError::BadNames)));
}

#[test]
fn a_short_name_list_is_a_typed_error() {
    let core = WidgetCore::new(40, 24);
    let mut tv: TabView<NamedPane> = TabView::new(&core);
    tv.push_widget(pane("a", "HDR")).unwrap();
    tv.push_widget(pane("skip", "HDR")).unwrap();
    assert!(matches!(tv.render_header(), Err(TabError::BadNames)));
}

#[test]
fn a_failing_pane_header_propagates() {
    let core = WidgetCore::new(40, 24);
    let mut tv: TabView<NamedPane> = TabView::new(&core);
    tv.push_widget(pane("a", "fail")).unwrap();
    assert!(matches!(tv.render_header(), Err(TabError::App)));
}
