use shepherd::model::{
    DashboardState, ErrorState, EventSourceMapping, EventSourceMappingState, Lambda, Metric,
    SearchState, State,
};
use shepherd::pages::dashboard::{chart_grid, DashboardPage};
use shepherd::pages::error::ErrorPage;
use shepherd::pages::search::SearchPage;
use shepherd::pages::splash::SplashPage;
use shepherd::pages::{AppRouter, Page};

fn lambda(name: &str) -> Lambda {
    Lambda {
        name: name.to_string(),
        arn: format!("arn:aws:lambda:eu-west-1:123456789012:function:{}", name),
        runtime: "go1.x".to_string(),
        memory: 128,
        timeout: 5,
    }
}

fn dashboard_state() -> State {
    State::Dashboard(DashboardState {
        lambda: lambda("f1"),
        metrics: vec![Metric {
            name: "invocations".to_string(),
            metric: "Invocations".to_string(),
            timestamps: vec![0, 60],
            values: vec![0, 0],
        }],
        event_source_mappings: vec![EventSourceMapping::SQS {
            name: "q".to_string(),
            batch_size: 1,
            state: EventSourceMappingState::Enabled,
            batch_window: 0,
        }],
    })
}

#[test]
fn rebuilding_with_an_unowned_state_resets_each_page_deterministically() {
    let owned = dashboard_state();
    let dash = DashboardPage::new(&State::Splash).move_with_state(&owned);
    assert!(dash.props.lambda.is_some());
    let dash = dash.move_with_state(&State::Quit);
    assert!(dash.props.lambda.is_none());
    assert!(dash.props.data.is_none());
    assert!(dash.props.event_source_mappings.is_empty());
    let dash = dash.move_with_state(&State::Splash);
    assert!(dash.props.lambda.is_none());

    let err = ErrorPage::new(&State::Error(ErrorState { error_message: "x".to_string() }));
    assert_eq!(err.props.error_message, "x");
    let err = err.move_with_state(&State::Splash);
    assert_eq!(err.props.error_message, "");
    let err = err.move_with_state(&owned);
    assert_eq!(err.props.error_message, "");

    let search = SearchPage::new(&State::Search(SearchState { lambdas: vec![lambda("f1")] }));
    assert_eq!(search.props.lambdas.len(), 1);
    let search = search.move_with_state(&owned);
    assert!(search.props.lambdas.is_empty());
    assert!(search.props.filtered_list.is_empty());
    assert_eq!(search.props.highlighted_index, 0);

    let _ = SplashPage::new(&owned).move_with_state(&State::Quit);
}

#[test]
fn the_router_follows_the_fixed_state_to_page_mapping() {
    let router = AppRouter::new(&State::Splash);
    assert!(matches!(router.current, Page::Splash));
    assert_eq!(router.name(), "Splash");

    let router = router.move_with_state(&State::Search(SearchState { lambdas: Vec::new() }));
    assert!(matches!(router.current, Page::Search));
    assert_eq!(router.name(), "Search");

    let router = router.move_with_state(&State::Searching(shepherd::model::SearchingState {
        lambda: lambda("f1"),
    }));
    assert!(matches!(router.current, Page::Search));

    let router = router.move_with_state(&dashboard_state());
    assert!(matches!(router.current, Page::Dashboard));
    assert_eq!(router.name(), "Dashboard");

    let router = router.move_with_state(&State::Error(ErrorState {
        error_message: "boom".to_string(),
    }));
    assert!(matches!(router.current, Page::Error));
    assert_eq!(router.name(), "Error");
    assert_eq!(router.error.props.error_message, "boom");

    let router = router.move_with_state(&State::Splash);
    assert!(matches!(router.current, Page::Splash));
}

#[test]
fn every_page_is_rebuilt_on_a_state_change_not_only_the_current_one() {
    let router = AppRouter::new(&State::Splash);
    let router = router.move_with_state(&dashboard_state());
    assert!(matches!(router.current, Page::Dashboard));
    assert!(router.search.props.lambdas.is_empty());
    assert_eq!(router.error.props.error_message, "");
    let router = router.move_with_state(&State::Search(SearchState {
        lambdas: vec![lambda("f2")],
    }));
    assert!(router.dashboard.props.lambda.is_none());
    assert_eq!(router.search.props.lambdas.len(), 1);
}

#[test]
fn chart_grid_favours_width() {
    assert_eq!(chart_grid(1), (1, 1));
    assert_eq!(chart_grid(2), (1, 2));
    assert_eq!(chart_grid(3), (1, 3));
    assert_eq!(chart_grid(4), (2, 2));
    assert_eq!(chart_grid(5), (2, 2));
    assert_eq!(chart_grid(6), (2, 3));
}
