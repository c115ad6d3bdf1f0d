use botshell::launch::{backend_command, unbuffered_flag, utf8_env, BackendLaunch};
use botshell::messages::{
    already_running_message, backend_spawn_error_message, bot_spawn_error_message,
    current_dir_error_message, greet, interpreter_missing_message, kill_error_message,
    lock_error_message, missing_script_message, not_running_message, started_message,
    stopped_message, test_monitoring_command,
};
use botshell::stats::{
    default_monitoring_stats, demo_opportunities, demo_opportunities_now, millis_before,
    monitoring_stats_now, monitoring_stats_response,
};
use botshell::worker::WorkerName;

#[test]
fn default_stats_record_is_fully_populated() {
    let now: i64 = 7_200_000;
    let stats = default_monitoring_stats(now);
    assert_eq!(stats.start_time, 3_600_000);
    assert_eq!(stats.loop_count, 1234);
    assert_eq!(stats.total_opportunities_found, 45);
    assert_eq!(stats.opportunities_executed, 12);
    assert_eq!(stats.total_profit_usd_hundredths, 12345);
    assert_eq!(stats.errors, 2);
    assert_eq!(stats.avg_execution_time_hundredths, 230);
    assert_eq!(stats.opportunities_per_hour_hundredths, 1250);
    assert_eq!(stats.uptime, 3600);
    assert_eq!(stats.last_opportunity_time, Some(6_900_000));
    let best = stats.best_opportunity.expect("a best opportunity");
    assert_eq!(best.pair, "ETH/USDC");
    assert_eq!(best.buy_dex, "Uniswap");
    assert_eq!(best.sell_dex, "SushiSwap");
    assert_eq!(best.profit_usd_hundredths, 2567);
    assert_eq!(best.profit_pct_hundredths, 245);
    assert_eq!(best.time, 5_400_000);
}

#[test]
fn stats_fall_back_to_the_default_when_nothing_parsed() {
    let stats = monitoring_stats_response(None, 3_600_000);
    assert_eq!(stats.start_time, 0);
    assert_eq!(stats.uptime, 3600);
    assert!(stats.best_opportunity.is_some());

    let stats = monitoring_stats_now(None);
    assert_eq!(stats.loop_count, 1234);
    assert!(stats.start_time >= -3_600_000);
}

#[test]
fn parsed_stats_pass_through_unchanged() {
    let mut parsed = default_monitoring_stats(0);
    parsed.loop_count = 9;
    parsed.errors = 0;
    parsed.best_opportunity = None;
    let stats = monitoring_stats_response(Some(parsed), 99);
    assert_eq!(stats.loop_count, 9);
    assert_eq!(stats.errors, 0);
    assert!(stats.best_opportunity.is_none());
}

#[test]
fn millis_before_saturates() {
    assert_eq!(millis_before(1_000, 300), 700);
    assert_eq!(millis_before(i64::MIN, 1), i64::MIN);
}

#[test]
fn demo_opportunities_hold_the_two_fixed_records() {
    let opportunities = demo_opportunities(1_000_000);
    assert_eq!(opportunities.len(), 2);

    let first = &opportunities[0];
    assert_eq!(first.id, "1");
    assert_eq!(first.pair, "ETH/USDC");
    assert_eq!(first.buy_dex, "Uniswap V3");
    assert_eq!(first.sell_dex, "SushiSwap");
    assert_eq!(first.buy_price_hundredths, 245_678);
    assert_eq!(first.sell_price_hundredths, 247_890);
    assert_eq!(first.profit_pct_hundredths, 89);
    assert_eq!(first.profit_usd_hundredths, 1234);
    assert_eq!(first.volume_hundredths, 5_000_000);
    assert_eq!(first.timestamp, 1_000_000);

    let second = &opportunities[1];
    assert_eq!(second.id, "2");
    assert_eq!(second.pair, "BTC/USDC");
    assert_eq!(second.buy_dex, "Aerodrome");
    assert_eq!(second.sell_dex, "Balancer V2");
    assert_eq!(second.buy_price_hundredths, 6_789_012);
    assert_eq!(second.sell_price_hundredths, 6_823_456);
    assert_eq!(second.profit_pct_hundredths, 51);
    assert_eq!(second.profit_usd_hundredths, 876);
    assert_eq!(second.volume_hundredths, 2_500_000);
    assert_eq!(second.timestamp, 970_000);

    let live = demo_opportunities_now();
    assert_eq!(live.len(), 2);
    assert!(live[0].timestamp >= 0);
    assert_eq!(live[1].timestamp, millis_before(live[0].timestamp, 30_000));
}

#[test]
fn backend_commands() {
    let (program, args) = backend_command(BackendLaunch::WindowsBundle);
    assert_eq!(program, "arbitrage-bot-server.exe");
    assert!(args.is_empty());

    let (program, args) = backend_command(BackendLaunch::UnixBundle);
    assert_eq!(program, "./arbitrage-bot-server");
    assert!(args.is_empty());

    let (program, args) = backend_command(BackendLaunch::PythonScript);
    assert_eq!(program, "python");
    assert_eq!(args, [String::from("../socketio_server.py")]);
}

#[test]
fn bot_launch_fixtures() {
    assert_eq!(unbuffered_flag(), "-u");
    let (key, value) = utf8_env();
    assert_eq!(key, "PYTHONIOENCODING");
    assert_eq!(value, "utf-8");
}

#[test]
fn outcome_messages() {
    assert_eq!(
        already_running_message(WorkerName::BackendServer),
        "Python backend is already running"
    );
    assert_eq!(
        already_running_message(WorkerName::MonitoringBot),
        "Arbitrage bot is already running"
    );
    assert_eq!(started_message(WorkerName::BackendServer), "Python backend started successfully");
    assert_eq!(started_message(WorkerName::MonitoringBot), "Arbitrage bot started successfully");
    assert_eq!(stopped_message(WorkerName::BackendServer), "Python backend stopped");
    assert_eq!(stopped_message(WorkerName::MonitoringBot), "Arbitrage bot stopped");
    assert_eq!(not_running_message(WorkerName::BackendServer), "Python backend was not running");
    assert_eq!(not_running_message(WorkerName::MonitoringBot), "Arbitrage bot was not running");
}

#[test]
fn error_messages() {
    assert_eq!(
        kill_error_message(WorkerName::BackendServer, "no such process"),
        "Failed to kill Python process: no such process"
    );
    assert_eq!(
        kill_error_message(WorkerName::MonitoringBot, "denied"),
        "Failed to kill arbitrage bot process: denied"
    );
    assert_eq!(lock_error_message("poisoned"), "Failed to lock state: poisoned");
    assert_eq!(
        current_dir_error_message("gone"),
        "Failed to get current directory: gone"
    );
    assert_eq!(
        backend_spawn_error_message(true, "not executable"),
        "Failed to start bundled backend: not executable"
    );
    assert_eq!(
        backend_spawn_error_message(false, "no python"),
        "Failed to start Python backend: no python"
    );
    assert_eq!(
        bot_spawn_error_message("python3", "\"/srv/bot.py\"", "no file"),
        "Failed to start arbitrage bot with python3 at \"/srv/bot.py\": no file"
    );
    assert_eq!(
        interpreter_missing_message("python"),
        "Python command 'python' not found. Please ensure Python is installed and available in PATH."
    );
    assert_eq!(
        missing_script_message("\"/srv/missing.py\""),
        "Arbitrage bot script not found at: \"/srv/missing.py\""
    );
}

#[test]
fn greeting_commands() {
    assert_eq!(greet("World"), "Hello, World! You've been greeted from Rust!");
    assert_eq!(test_monitoring_command(), Ok(String::from("Test monitoring command works!")));
}
