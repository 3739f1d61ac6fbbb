use kyward_ui::api::{FetchError, Method, Request, Response};
use kyward_ui::models::door::Door;
use kyward_ui::pages::doors::{Doors, Msg, Properties, Row, Screen};
use kyward_ui::runtime::{Command, Effect, Phase};

fn list_props() -> Properties {
    Properties { token: "secret".to_string(), attach_token: false }
}

fn front_door() -> Door {
    Door::new(7, "Front", "A", "1", "Main", "d")
}

fn back_door() -> Door {
    Door::new(8, "Back", "B", "2", "Annex", "e")
}

fn mounted_list() -> (Doors, Command) {
    let (mut page, first) = Doors::create(list_props());
    let effect = page.update(first);
    (page, effect.command.expect("the first message issues a fetch"))
}

fn loaded_list() -> Doors {
    let (mut page, fetch) = mounted_list();
    page.update(Doors::on_completion(&fetch, Response::Doors(vec![front_door(), back_door()])));
    page
}

#[test]
fn list_starts_empty_and_schedules_a_refresh() {
    let (page, first) = Doors::create(list_props());
    assert_eq!(first, Msg::Refresh);
    assert!(page.items().is_empty());
    assert_eq!(page.pending_request(), None);
    assert_eq!(page.generation(), 0);
    assert_eq!(page.failure(), None);
    assert_eq!(page.phase(), Phase::Empty);
    assert_eq!(page.view(), Screen { rows: vec![], busy: false, failure: None });
}

#[test]
fn refresh_issues_a_fetch_of_all_doors() {
    let (mut page, first) = Doors::create(list_props());
    let effect = page.update(first);
    assert_eq!(
        effect,
        Effect {
            render: true,
            command: Some(Command { generation: 1, request: Request::FetchAll, token: None }),
        }
    );
    let command = effect.command.expect("a fetch");
    assert_eq!(command.request.method(), Method::Get);
    assert_eq!(command.request.path(), "/api/v1alpha1/door");
    assert_eq!(command.request.body(), None);
    assert_eq!(page.pending_request().map(|handle| handle.generation()), Some(1));
    assert_eq!(page.phase(), Phase::Loading);
}

#[test]
fn fetched_list_is_shown_in_server_order() {
    let (mut page, fetch) = mounted_list();
    let msg = Doors::on_completion(&fetch, Response::Doors(vec![back_door(), front_door()]));
    assert_eq!(msg, Msg::GetResult(1, Ok(vec![back_door(), front_door()])));
    let effect = page.update(msg);
    assert_eq!(effect, Effect { render: true, command: None });
    assert_eq!(page.items(), &vec![back_door(), front_door()]);
    assert_eq!(page.pending_request(), None);
    assert_eq!(page.phase(), Phase::Loaded);
}

#[test]
fn empty_response_replaces_a_prior_list() {
    let mut page = loaded_list();
    assert_eq!(page.items().len(), 2);
    let fetch = page.update(Msg::Refresh).command.expect("a fetch");
    let effect = page.update(Doors::on_completion(&fetch, Response::Doors(vec![])));
    assert_eq!(effect, Effect { render: true, command: None });
    assert!(page.items().is_empty());
    assert_eq!(page.failure(), None);
    assert_eq!(page.phase(), Phase::Empty);
}

#[test]
fn failed_fetch_keeps_the_list() {
    let mut page = loaded_list();
    let fetch = page.update(Msg::Refresh).command.expect("a fetch");
    let effect = page.update(
        Doors::on_completion(&fetch, Response::Failed(FetchError::Transport)),
    );
    assert_eq!(effect, Effect { render: true, command: None });
    assert_eq!(page.items(), &vec![front_door(), back_door()]);
    assert_eq!(page.failure(), Some(FetchError::Transport));
    assert_eq!(page.pending_request(), None);
    assert_eq!(page.phase(), Phase::Failed);
    assert_eq!(page.view().failure, Some(FetchError::Transport));
}

#[test]
fn undecodable_body_keeps_the_list() {
    let mut page = loaded_list();
    let fetch = page.update(Msg::Refresh).command.expect("a fetch");
    page.update(Doors::on_completion(&fetch, Response::Failed(FetchError::Decode)));
    assert_eq!(page.items(), &vec![front_door(), back_door()]);
    assert_eq!(page.failure(), Some(FetchError::Decode));
}

#[test]
fn success_marker_is_no_door_list() {
    let (mut page, fetch) = mounted_list();
    let msg = Doors::on_completion(&fetch, Response::Done);
    assert_eq!(msg, Msg::GetResult(1, Err(FetchError::Decode)));
    page.update(msg);
    assert_eq!(page.failure(), Some(FetchError::Decode));
}

#[test]
fn refresh_after_failure_forgets_the_failure() {
    let (mut page, fetch) = mounted_list();
    page.update(Doors::on_completion(&fetch, Response::Failed(FetchError::Transport)));
    page.update(Msg::Refresh);
    assert_eq!(page.failure(), None);
    assert_eq!(page.phase(), Phase::Loading);
}

#[test]
fn newer_fetch_wins_when_the_older_completes_later() {
    let (mut page, older) = mounted_list();
    let newer = page.update(Msg::Refresh).command.expect("a fetch");
    assert!(older.generation < newer.generation);
    page.update(Doors::on_completion(&newer, Response::Doors(vec![back_door()])));
    let effect = page.update(Doors::on_completion(&older, Response::Doors(vec![front_door()])));
    assert_eq!(effect, Effect { render: false, command: None });
    assert_eq!(page.items(), &vec![back_door()]);
}

#[test]
fn newer_fetch_wins_when_the_older_completes_first() {
    let (mut page, older) = mounted_list();
    let newer = page.update(Msg::Refresh).command.expect("a fetch");
    let effect = page.update(Doors::on_completion(&older, Response::Doors(vec![front_door()])));
    assert_eq!(effect, Effect { render: false, command: None });
    assert!(page.items().is_empty());
    assert_eq!(page.phase(), Phase::Loading);
    page.update(Doors::on_completion(&newer, Response::Doors(vec![back_door()])));
    assert_eq!(page.items(), &vec![back_door()]);
    assert_eq!(page.phase(), Phase::Loaded);
}

#[test]
fn three_fetches_settle_on_the_newest_in_every_order() {
    let orders: [[usize; 3]; 6] =
        [[0, 1, 2], [0, 2, 1], [1, 0, 2], [1, 2, 0], [2, 0, 1], [2, 1, 0]];
    for order in orders.iter() {
        let (mut page, first) = mounted_list();
        let second = page.update(Msg::Refresh).command.expect("a fetch");
        let third = page.update(Msg::Refresh).command.expect("a fetch");
        let commands = [first, second, third];
        for &which in order.iter() {
            let body = vec![Door::new(which as i32, "n", "c", "l", "b", "d")];
            page.update(Doors::on_completion(&commands[which], Response::Doors(body)));
        }
        assert_eq!(page.items(), &vec![Door::new(2, "n", "c", "l", "b", "d")]);
        assert_eq!(page.pending_request(), None);
    }
}

#[test]
fn late_failure_does_not_disturb_the_list() {
    let (mut page, older) = mounted_list();
    let newer = page.update(Msg::Refresh).command.expect("a fetch");
    page.update(Doors::on_completion(&newer, Response::Doors(vec![back_door()])));
    page.update(Doors::on_completion(&older, Response::Failed(FetchError::Transport)));
    assert_eq!(page.items(), &vec![back_door()]);
    assert_eq!(page.failure(), None);
    assert_eq!(page.phase(), Phase::Loaded);
}

#[test]
fn list_result_without_a_fetch_in_flight_is_dropped() {
    let (mut page, _first) = Doors::create(list_props());
    let effect = page.update(Msg::GetResult(0, Ok(vec![front_door()])));
    assert_eq!(effect, Effect { render: false, command: None });
    assert!(page.items().is_empty());
}

#[test]
fn add_local_appends_without_a_command() {
    let mut page = loaded_list();
    let third = Door::new(9, "Side", "C", "3", "Main", "f");
    let effect = page.update(Msg::AddLocal(third.clone()));
    assert_eq!(effect, Effect { render: true, command: None });
    assert_eq!(page.items(), &vec![front_door(), back_door(), third]);
    assert_eq!(page.generation(), 1);
    assert_eq!(page.pending_request(), None);
}

#[test]
fn locally_added_door_is_gone_after_the_next_fetch() {
    let mut page = loaded_list();
    page.update(Msg::AddLocal(Door::new(9, "Side", "C", "3", "Main", "f")));
    let fetch = page.update(Msg::Refresh).command.expect("a fetch");
    assert_eq!(page.items().len(), 3);
    page.update(Doors::on_completion(&fetch, Response::Doors(vec![front_door()])));
    assert_eq!(page.items(), &vec![front_door()]);
}

#[test]
fn view_shows_four_columns_per_door() {
    let mut page = loaded_list();
    assert_eq!(
        page.view(),
        Screen {
            rows: vec![
                Row {
                    name: "Front".to_string(),
                    compartment: "A".to_string(),
                    level: "1".to_string(),
                    building: "Main".to_string(),
                },
                Row {
                    name: "Back".to_string(),
                    compartment: "B".to_string(),
                    level: "2".to_string(),
                    building: "Annex".to_string(),
                },
            ],
            busy: false,
            failure: None,
        }
    );
    page.update(Msg::Refresh);
    let screen = page.view();
    assert!(screen.busy);
    assert_eq!(screen.rows.len(), 2);
}

#[test]
fn list_token_travels_only_when_configured() {
    let with = Properties { token: "secret".to_string(), attach_token: true };
    let (mut page, first) = Doors::create(with);
    let command = page.update(first).command.expect("a fetch");
    assert_eq!(command.token, Some("secret".to_string()));

    let (_page, command) = mounted_list();
    assert_eq!(command.token, None);
}

#[test]
fn list_change_needs_no_repaint() {
    let mut page = loaded_list();
    let render = page.change(Properties { token: "other".to_string(), attach_token: true });
    assert!(!render);
    assert_eq!(page.items().len(), 2);
    let command = page.update(Msg::Refresh).command.expect("a fetch");
    assert_eq!(command.token, None);
}
