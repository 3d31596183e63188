use tabview::errors::TabError;
use tabview::keys::Key;
use tabview::widget::Widget;
use tabview::widget::WidgetCore;
use tabview::tabview::TabLogic;
use tabview::tabview::TabView;
use tabview::tabview::Tabbable;

/// A pane type whose container's post-switch hook always fails.
struct SulkyPane;

impl Widget for SulkyPane {
    fn get_core(&self) -> Result<&WidgetCore, TabError> {
        Err(TabError::App)
    }
    fn get_core_mut(&mut self) -> Result<&mut WidgetCore, TabError> {
        Err(TabError::App)
    }
    fn render_header(&self) -> Result<String, TabError> {
        Ok(String::new())
    }
    fn render_footer(&self) -> Result<String, TabError> {
        Ok(String::new())
    }
    fn get_drawlist(&self) -> Result<String, TabError> {
        Ok(String::new())
    }
    fn refresh(&mut self) -> Result<(), TabError> {
        Ok(())
    }
    fn on_key(&mut self, _key: Key) -> Result<(), TabError> {
        Ok(())
    }
}

impl TabLogic for SulkyPane {
    fn new_tab(tv: &mut TabView<SulkyPane>) -> Result<(), TabError> {
        tv.push_widget(SulkyPane)
    }
    fn close_tab(tv: &mut TabView<SulkyPane>) -> Result<(), TabError> {
        tv.close_tab_()
    }
    fn next_tab(tv: &mut TabView<SulkyPane>) -> Result<(), TabError> {
        tv.next_tab_();
        Ok(())
    }
    fn on_next_tab(_tv: &mut TabView<SulkyPane>) -> Result<(), TabError> {
        Err(TabError::App)
    }
    fn tab_names(tv: &TabView<SulkyPane>) -> Vec<Option<String>> {
        tv.widgets.iter().map(|_| Some(String::from("tab"))).collect()
    }
    fn on_key_sub(_tv: &mut TabView<SulkyPane>, _key: Key) -> Result<(), TabError> {
        Ok(())
    }
}

#[test]
fn a_failing_hook_does_not_stop_the_switch() {
    let core = WidgetCore::new(80, 24);
    let mut tv: TabView<SulkyPane> = TabView::new(&core);
    tv.push_widget(SulkyPane).unwrap();
    tv.push_widget(SulkyPane).unwrap();
    tv.next_tab_();
    // The switch completed even though the hook failed ...
    assert_eq!(tv.active, 1);
    tv.next_tab_();
    assert_eq!(tv.active, 0);
}

#[test]
fn a_failing_hook_is_recorded_in_the_log() {
    let core = WidgetCore::new(80, 24);
    let mut tv: TabView<SulkyPane> = TabView::new(&core);
    tv.push_widget(SulkyPane).unwrap();
    tv.push_widget(SulkyPane).unwrap();
    assert!(tv.core.log.is_empty());
    tv.next_tab_();
    assert_eq!(tv.core.log.len(), 1);
    assert_eq!(tv.core.log[0], "a tab operation failed in the application");
    tv.next_tab_();
    assert_eq!(tv.core.log.len(), 2);
}

#[test]
fn next_tab_through_the_capability_reports_no_error() {
    let core = WidgetCore::new(80, 24);
    let mut tv: TabView<SulkyPane> = TabView::new(&core);
    tv.push_widget(SulkyPane).unwrap();
    tv.push_widget(SulkyPane).unwrap();
    assert!(tv.next_tab().is_ok());
    assert_eq!(tv.active, 1);
}
