use asteroids::screen::GameScreen;
use asteroids::screen::ScreenManager;

#[derive(Clone, Copy, PartialEq, Eq, Debug)]
enum TestScreen {
    Start,
    Play,
}

impl GameScreen for TestScreen {
    fn display(&mut self) {}

    fn handle_controls(&mut self, _previous_screen: Option<Self>) -> Option<Self> {
        None
    }
}

fn fresh_manager() -> ScreenManager<TestScreen> {
    ScreenManager { current_screen: TestScreen::Start, previous_screen: Some(TestScreen::Start) }
}

#[test]
fn change_screen_retains_previous() {
    let mut manager = fresh_manager();
    manager.change_screen(TestScreen::Play);
    assert_eq!(manager.current_screen, TestScreen::Play);
    assert_eq!(manager.previous_screen, Some(TestScreen::Start));
}

#[test]
fn revert_restores_previous_once() {
    let mut manager = fresh_manager();
    manager.change_screen(TestScreen::Play);
    manager.revert_screen();
    assert_eq!(manager.current_screen, TestScreen::Start);
    assert_eq!(manager.previous_screen, None);
    manager.revert_screen();
    assert_eq!(manager.current_screen, TestScreen::Start);
    assert_eq!(manager.previous_screen, None);
}

#[test]
fn fresh_revert_leaves_current_unchanged() {
    let mut manager = fresh_manager();
    manager.revert_screen();
    assert_eq!(manager.current_screen, TestScreen::Start);
}

#[test]
fn two_changes_keep_one_level_of_history() {
    let mut manager = fresh_manager();
    manager.change_screen(TestScreen::Play);
    manager.change_screen(TestScreen::Start);
    assert_eq!(manager.current_screen, TestScreen::Start);
    assert_eq!(manager.previous_screen, Some(TestScreen::Play));
    manager.revert_screen();
    assert_eq!(manager.current_screen, TestScreen::Play);
    assert_eq!(manager.previous_screen, None);
}
