use tasbot_eyes::arguments::Arguments;
use tasbot_eyes::arguments::check_arguments;
use tasbot_eyes::arguments::fallback_arguments;
use tasbot_eyes::arguments::init_arguments;
use tasbot_eyes::color::Color;
use tasbot_eyes::file_operations::BASE_PATH;
use tasbot_eyes::file_operations::Playlist;
use tasbot_eyes::file_operations::STARTUP_PATH;
use tasbot_eyes::led::check_dma_channel;
use tasbot_eyes::led::check_gpio_pin;
use tasbot_eyes::led::StripKind;
use tasbot_eyes::network::Message;
use tasbot_eyes::network::NetworkError;
use tasbot_eyes::network::PlayMode;
use tasbot_eyes::network::process_message;
use tasbot_eyes::queue::InjectionQueue;
use tasbot_eyes::renderer::led_matrix::get_led_matrix_config;
use tasbot_eyes::renderer::tasbot_eyes::get_tasbot_eye_config;
use tasbot_eyes::tasbot::BlinkStep;
use tasbot_eyes::tasbot::ScheduleError;
use tasbot_eyes::tasbot::StartPlan;
use tasbot_eyes::tasbot::do_blink_cycle;
use tasbot_eyes::tasbot::get_blink_amount;
use tasbot_eyes::tasbot::get_blink_delay;
use tasbot_eyes::tasbot::show_base;
use tasbot_eyes::tasbot::show_next_animation;
use tasbot_eyes::tasbot::start_eyes;
use tasbot_eyes::tasbot::startup;

fn test_args() -> Arguments {
    let mut args = fallback_arguments();
    args.min_delay = 100;
    args.max_delay = 200;
    args
}

//min_delay == max_delay
#[test]
fn test_get_blink_delay_min_delay_equals_max_delay() {
    let delay = get_blink_delay(2000, 2000, 1000);
    assert_eq!(delay, 2000);

    let delay = get_blink_delay(2000, 2000, 2000);
    assert_eq!(delay, 1000);
}

//min_delay < max_delay
#[test]
fn test_get_blink_delay_min_delay_less_than_max_delay() {
    let delay = get_blink_delay(1000, 2000, 1000);
    assert!(delay >= 1000 && delay <= 2000);

    let delay = get_blink_delay(1000, 2000, 2000);
    assert!(delay >= 500 && delay <= 1000);
}

#[test]
fn test_get_blink_amount_bounds() {
    assert_eq!(get_blink_amount(0), 0);
    for _ in 0..20 {
        let n = get_blink_amount(4);
        assert!(1 <= n && n <= 4);
    }
    assert_eq!(get_blink_amount(1), 1);
}

#[test]
fn test_check_arguments() {
    let raw_args = Arguments {
        skip_startup_animation: false,
        playback_speed_milli: 0,
        max_blinks: 0,
        min_delay: 10,
        max_delay: 5,
        color_overwrite: false,
        color_overwrite_all: false,
        default_color: Some("ffffff".to_owned()),
        palette: None,
        playlist: None,
        continue_after_playlist: false,
        inject_port: 0,
    };

    let expected_args = Arguments {
        skip_startup_animation: false,
        playback_speed_milli: 1000,
        max_blinks: 0,
        min_delay: 5,
        max_delay: 10,
        color_overwrite: false,
        color_overwrite_all: false,
        default_color: None,
        palette: None,
        playlist: None,
        continue_after_playlist: false,
        inject_port: 0,
    };

    let result = check_arguments(raw_args);
    assert_ne!(expected_args, result);
}

#[test]
fn test_check_arguments_swaps_reversed_delays() {
    let mut raw = fallback_arguments();
    raw.min_delay = 6000;
    raw.max_delay = 4000;
    let checked = init_arguments(raw);
    assert_eq!(checked.min_delay, 4000);
    assert_eq!(checked.max_delay, 6000);
}

#[test]
fn test_check_arguments_clamps_speed_and_keeps_color() {
    let mut raw = fallback_arguments();
    raw.playback_speed_milli = 0;
    raw.default_color = Some("00FF00".to_owned());
    let checked = check_arguments(raw);
    assert_eq!(checked.playback_speed_milli, 1000);
    assert_eq!(checked.default_color, Some("00FF00".to_owned()));

    let mut raw = fallback_arguments();
    raw.default_color = Some("not a color".to_owned());
    let checked = check_arguments(raw);
    assert_eq!(checked.default_color, None);
}

#[test]
fn test_queue_lifo_order() {
    let mut queue = InjectionQueue::new();
    queue.append("a.gif".to_owned());
    queue.append("b.gif".to_owned());
    queue.append("c.gif".to_owned());
    assert_eq!(queue.len(), 3);
    assert_eq!(queue.lock_and_pop_last(), Some("c.gif".to_owned()));
    assert_eq!(queue.lock_and_pop_last(), Some("b.gif".to_owned()));
    assert_eq!(queue.lock_and_pop_last(), Some("a.gif".to_owned()));
    assert_eq!(queue.lock_and_pop_last(), None);
}

#[test]
fn test_queue_pop_empty_is_nothing_to_do() {
    let mut queue = InjectionQueue::new();
    assert!(queue.is_empty());
    assert_eq!(queue.lock_and_pop_last(), None);
}

#[test]
fn test_startup_order() {
    let order = startup();
    assert_eq!(order.path, STARTUP_PATH);
    assert_eq!(order.color, None);
}

#[test]
fn test_show_base_skipped_without_blinks() {
    let palette = vec![Color { r: 1, g: 2, b: 3 }];
    let mut args = test_args();
    args.max_blinks = 0;
    assert!(show_base(&args, false, &palette).is_none());
    let mut args = test_args();
    args.min_delay = 0;
    assert!(show_base(&args, false, &palette).is_none());
}

#[test]
fn test_show_base_plays_base_animation() {
    let palette = vec![Color { r: 1, g: 2, b: 3 }];
    let args = test_args();
    let order = show_base(&args, false, &palette).unwrap();
    assert_eq!(order.path, BASE_PATH);
    assert_eq!(order.color, None);
    let order = show_base(&args, true, &palette).unwrap();
    assert_eq!(order.color, Some(Color { r: 1, g: 2, b: 3 }));
}

#[test]
fn test_do_blink_cycle_with_files() {
    let palette = vec![Color { r: 1, g: 2, b: 3 }];
    let args = test_args();
    let files = vec!["blink1.gif".to_owned(), "blink2.gif".to_owned()];
    let steps = do_blink_cycle(&args, false, &palette, Some(&files));
    // an initial sleep, then one play and one sleep per blink
    assert!(steps.len() >= 3);
    assert!(steps.len() % 2 == 1);
    let blinks = (steps.len() - 1) / 2;
    assert!(1 <= blinks && blinks <= args.max_blinks as usize);
    for (i, step) in steps.iter().enumerate() {
        match step {
            BlinkStep::Sleep { ms } => {
                assert!(i % 2 == 0);
                assert!(100 <= *ms && *ms <= 200);
            },
            BlinkStep::Play(order) => {
                assert!(i % 2 == 1);
                assert!(files.contains(&order.path));
                assert_eq!(order.color, None);
            },
        }
    }
}

#[test]
fn test_do_blink_cycle_without_listing_only_sleeps() {
    let palette = vec![Color { r: 1, g: 2, b: 3 }];
    let args = test_args();
    let steps = do_blink_cycle(&args, false, &palette, None);
    assert!(steps.len() >= 2);
    for step in &steps {
        assert!(matches!(step, BlinkStep::Sleep { .. }));
    }
}

#[test]
fn test_show_next_animation_pops_injected_first() {
    let palette = vec![Color { r: 9, g: 9, b: 9 }];
    let mut queue = InjectionQueue::new();
    queue.append("injected.gif".to_owned());
    let order = show_next_animation(&mut queue, None, false, &palette).unwrap().unwrap();
    assert_eq!(order.path, "injected.gif");
    assert_eq!(order.color, None);
    assert!(queue.is_empty());
}

#[test]
fn test_show_next_animation_refills_from_directory() {
    let palette = vec![Color { r: 9, g: 9, b: 9 }];
    let mut queue = InjectionQueue::new();
    let listing = vec!["one.gif".to_owned(), "two.gif".to_owned(), "three.gif".to_owned()];
    let order = show_next_animation(&mut queue, Some(listing.clone()), false, &palette)
        .unwrap()
        .unwrap();
    // the played path and the refilled queue together hold the listing
    let mut seen = vec![order.path.clone()];
    while let Some(p) = queue.lock_and_pop_last() {
        seen.push(p);
    }
    seen.sort();
    let mut expected = listing.clone();
    expected.sort();
    assert_eq!(seen, expected);
}

#[test]
fn test_show_next_animation_listing_failure_skips() {
    let palette = vec![];
    let mut queue = InjectionQueue::new();
    let r = show_next_animation(&mut queue, None, false, &palette).unwrap();
    assert!(r.is_none());
}

#[test]
fn test_show_next_animation_empty_directory_is_fatal() {
    let palette = vec![];
    let mut queue = InjectionQueue::new();
    let r = show_next_animation(&mut queue, Some(vec![]), false, &palette);
    assert_eq!(r.unwrap_err(), ScheduleError::EmptyDirectory);
}

#[test]
fn test_start_eyes_normal_without_playlist() {
    let palette = vec![];
    let args = test_args();
    match start_eyes(&args, None, &palette) {
        StartPlan::Normal => {},
        _ => panic!("without a playlist the normal flow runs"),
    }
}

#[test]
fn test_start_eyes_playlist_orders() {
    let palette = vec![];
    let mut args = test_args();
    args.continue_after_playlist = true;
    let playlist = Playlist {
        data_type: "playlist".to_owned(),
        entries: vec!["x.gif".to_owned(), "y.gif".to_owned()],
    };
    match start_eyes(&args, Some(&playlist), &palette) {
        StartPlan::Playlist { orders, continue_after } => {
            assert_eq!(continue_after, true);
            assert_eq!(orders.len(), 2);
            assert_eq!(orders[0].path, "x.gif");
            assert_eq!(orders[1].path, "y.gif");
            assert_eq!(orders[0].color, None);
        },
        _ => panic!("a playlist must be played"),
    }
}

#[test]
fn test_play_mode_from_str() {
    assert_eq!(PlayMode::from_str("now").unwrap(), PlayMode::Now);
    assert_eq!(PlayMode::from_str("NOW").unwrap(), PlayMode::Now);
    assert_eq!(PlayMode::from_str("Queued").unwrap(), PlayMode::Queued);
    match PlayMode::from_str("later") {
        Err(NetworkError::Conversion(_)) => {},
        _ => panic!("an unknown play mode tag is a conversion error"),
    }
}

#[test]
fn test_process_message() {
    let message = Message { mode: "queued".to_owned(), data: vec![1, 2, 3] };
    let processed = process_message(&message, 7).unwrap();
    assert_eq!(processed.play_mode, PlayMode::Queued);
    assert_eq!(processed.file_name, "received_file_7.gif");

    let message = Message { mode: "sideways".to_owned(), data: vec![] };
    assert!(process_message(&message, 0).is_err());
}

#[test]
fn test_gpio_pin_one_is_rejected() {
    // pin 1 lies outside 2..=27 and must be rejected before any
    // rendering begins
    assert!(!check_gpio_pin(1));
    assert!(check_gpio_pin(2));
    assert!(check_gpio_pin(27));
    assert!(!check_gpio_pin(28));
}

#[test]
fn test_dma_channel_check() {
    assert!(check_dma_channel(0));
    assert!(check_dma_channel(13));
    assert!(!check_dma_channel(14));
}

#[test]
fn test_get_tasbot_eye_config_defaults() {
    let config = get_tasbot_eye_config(None, None);
    assert_eq!(config.pin, 10);
    assert_eq!(config.brightness, 4);
    assert_eq!(config.count, 154);
    assert_eq!(config.frequenz, 800_000);
    assert_eq!(config.dma, 10);
    assert_eq!(config.strip_kind, StripKind::Sk6812);
    let config = get_tasbot_eye_config(Some(18), Some(255));
    assert_eq!(config.pin, 18);
    assert_eq!(config.brightness, 255);
}

#[test]
fn test_get_led_matrix_config() {
    let config = get_led_matrix_config(StripKind::Ws2812, 18, 28, 8, None, None, None, None)
        .unwrap();
    assert_eq!(config.count, 224);
    assert_eq!(config.pin, 18);
    assert_eq!(config.brightness, 4);
    // a matrix smaller than the fixed grid is rejected
    assert!(get_led_matrix_config(StripKind::Ws2812, 18, 27, 8, None, None, None, None).is_err());
    assert!(get_led_matrix_config(StripKind::Ws2812, 18, 28, 7, None, None, None, None).is_err());
}

#[test]
fn test_fallback_arguments_values() {
    let args = fallback_arguments();
    assert_eq!(args.skip_startup_animation, true);
    assert_eq!(args.playback_speed_milli, 1000);
    assert_eq!(args.max_blinks, 4);
    assert_eq!(args.min_delay, 4000);
    assert_eq!(args.max_delay, 6000);
    assert_eq!(args.inject_port, 8082);
}
