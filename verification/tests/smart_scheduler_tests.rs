use kowalski_rlm::error::RLMError;
use kowalski_rlm::smart_scheduler::{
    calculate_agent_score, outranks, AgentStatus, ScheduledTask, SchedulerConfig, SchedulingStats,
    SmartScheduler,
};

fn agent(id: &str, load: i64, latency: u64, caps: &[&str], cost: i64, available: bool) -> AgentStatus {
    AgentStatus {
        id: id.to_string(),
        load,
        avg_latency_ms: latency,
        capabilities: caps.iter().map(|c| c.to_string()).collect(),
        cost_per_op: cost,
        available,
    }
}

fn task(id: &str, priority: i32, caps: &[&str]) -> ScheduledTask {
    ScheduledTask {
        id: id.to_string(),
        priority,
        cost: 100,
        latency_ms: 100,
        required_capabilities: caps.iter().map(|c| c.to_string()).collect(),
    }
}

#[test]
fn smart_scheduler_test_scheduler_creation() {
    let config = SchedulerConfig::default();
    let scheduler = SmartScheduler::new(config).unwrap();

    assert_eq!(scheduler.pending_tasks(), 0);
    assert_eq!(scheduler.available_agents(), 0);
}

#[test]
fn test_register_agent() {
    let config = SchedulerConfig::default();
    let mut scheduler = SmartScheduler::new(config).unwrap();

    let agent = AgentStatus {
        id: "agent1".to_string(),
        load: 100,
        avg_latency_ms: 50,
        capabilities: vec!["web_search".to_string()],
        cost_per_op: 100,
        available: true,
    };

    let result = scheduler.register_agent(agent);
    assert!(result.is_ok());
    assert_eq!(scheduler.available_agents(), 1);
}

#[test]
fn test_submit_task() {
    let config = SchedulerConfig::default();
    let mut scheduler = SmartScheduler::new(config).unwrap();

    let task = ScheduledTask {
        id: "task1".to_string(),
        priority: 5,
        cost: 100,
        latency_ms: 100,
        required_capabilities: vec!["web_search".to_string()],
    };

    let result = scheduler.submit_task(task);
    assert!(result.is_ok());
    assert_eq!(scheduler.pending_tasks(), 1);
}

#[test]
fn test_select_agent() {
    let config = SchedulerConfig::default();
    let mut scheduler = SmartScheduler::new(config).unwrap();

    let agent = AgentStatus {
        id: "agent1".to_string(),
        load: 100,
        avg_latency_ms: 50,
        capabilities: vec!["web_search".to_string()],
        cost_per_op: 100,
        available: true,
    };
    scheduler.register_agent(agent).ok();

    let task = ScheduledTask {
        id: "task1".to_string(),
        priority: 5,
        cost: 100,
        latency_ms: 100,
        required_capabilities: vec!["web_search".to_string()],
    };

    let selected = scheduler.select_agent_for_task(&task);
    assert!(selected.is_some());
    assert_eq!(selected.unwrap().id, "agent1");
}

#[test]
fn test_record_completion() {
    let config = SchedulerConfig::default();
    let mut scheduler = SmartScheduler::new(config).unwrap();

    scheduler.record_task_completion(100, 200, 100, true);
    scheduler.record_task_completion(150, 250, 100, true);

    let stats = scheduler.stats();
    assert_eq!(stats.total_tasks, 2);
    assert_eq!(stats.completed_tasks, 2);
    assert_eq!(stats.total_cost, 200);
}

#[test]
fn test_scheduler_config_validation() {
    let mut config = SchedulerConfig::default();
    assert!(config.validate().is_ok());

    // Test invalid concurrent agents
    config.max_concurrent = 0;
    assert!(config.validate().is_err());

    // Test invalid queue size
    config.max_concurrent = 10;
    config.queue_size = 0;
    assert!(config.validate().is_err());

    // Test invalid weight values
    config.queue_size = 100;
    config.cost_weight = -100;
    assert!(config.validate().is_err());

    // Test weights not summing to 1.0
    config.cost_weight = 500;
    config.latency_weight = 300;
    config.load_weight = 300;
    assert!(config.validate().is_err());
}

#[test]
fn test_agent_score_with_extreme_values() {
    let config = SchedulerConfig::default();

    // Test with high load (should be clamped)
    let agent_high_load = agent("agent1", 2000, 50, &[], 100, true);
    let score = calculate_agent_score(&config, &agent_high_load);
    assert!(score >= 0 && score <= 1_000_000);

    // Test with zero cost
    let agent_zero_cost = agent("agent2", 500, 100, &[], 0, true);
    let score = calculate_agent_score(&config, &agent_zero_cost);
    assert!(score >= 0 && score <= 1_000_000);
}

#[test]
fn test_reset_stats() {
    let config = SchedulerConfig::default();
    let mut scheduler = SmartScheduler::new(config).unwrap();

    scheduler.record_task_completion(100, 200, 100, true);
    let stats_before = scheduler.stats();
    assert_eq!(stats_before.total_tasks, 1);

    scheduler.reset_stats();
    let stats_after = scheduler.stats();
    assert_eq!(stats_after.total_tasks, 0);
    assert_eq!(stats_after.avg_wait_time_us, 0);
    assert_eq!(stats_after.avg_execution_time_us, 0);
}

#[test]
fn test_agent_selection_missing_capability() {
    let mut scheduler = SmartScheduler::new(SchedulerConfig::default()).unwrap();
    scheduler.register_agent(agent("basic_agent", 100, 40, &["basic"], 50, true)).ok();
    let selected = scheduler.select_agent_for_task(&task("special_task", 5, &["special"]));
    assert!(selected.is_none());
}

#[test]
fn test_multiple_agent_selection() {
    let mut scheduler = SmartScheduler::new(SchedulerConfig::default()).unwrap();
    for i in 0..3 {
        let a = agent(
            &format!("agent_{}", i),
            (i as i64) * 200,
            30 + (i as u64) * 10,
            &["web_search"],
            100,
            true,
        );
        scheduler.register_agent(a).ok();
    }
    let selected = scheduler.select_agent_for_task(&task("task", 5, &["web_search"]));

    // Should select agent with lowest load (agent_0)
    assert!(selected.is_some());
    assert_eq!(selected.unwrap().id, "agent_0");
}

#[test]
fn test_failure_tracking() {
    let mut scheduler = SmartScheduler::new(SchedulerConfig::default()).unwrap();
    scheduler.record_task_completion(100, 200, 100, true);
    scheduler.record_task_completion(150, 250, 100, false);

    let stats = scheduler.stats();
    assert_eq!(stats.total_tasks, 2);
    assert_eq!(stats.completed_tasks, 1);
    assert_eq!(stats.failed_tasks, 1);
}

#[test]
fn test_full_scheduler_queue() {
    let config = SchedulerConfig { queue_size: 2, ..SchedulerConfig::default() };
    let mut scheduler = SmartScheduler::new(config).unwrap();
    assert!(scheduler.submit_task(task("a", 1, &[])).is_ok());
    assert!(scheduler.submit_task(task("b", 1, &[])).is_ok());
    match scheduler.submit_task(task("c", 1, &[])) {
        Err(RLMError::SchedulingFailed(m)) => assert_eq!(m, "Task queue is full"),
        _ => panic!("expected SchedulingFailed"),
    }
    assert_eq!(scheduler.pending_tasks(), 2);
}

#[test]
fn test_empty_task_queue() {
    let mut scheduler = SmartScheduler::new(SchedulerConfig::default()).unwrap();
    assert!(scheduler.next_task().is_none());
    assert_eq!(scheduler.pending_tasks(), 0);
}

#[test]
fn construction_validates_the_configuration() {
    let bad = |f: &dyn Fn(&mut SchedulerConfig), expected: &str| {
        let mut config = SchedulerConfig::default();
        f(&mut config);
        assert_eq!(config.validate(), Err(expected.to_string()));
        match SmartScheduler::new(config) {
            Err(RLMError::ConfigError(m)) => assert_eq!(m, expected),
            _ => panic!("expected a configuration error"),
        }
    };
    bad(&|c| c.max_concurrent = 0, "max_concurrent must be > 0");
    bad(&|c| c.queue_size = 0, "queue_size must be > 0");
    bad(&|c| c.cost_weight = -1, "cost_weight must be between 0.0 and 1.0");
    bad(&|c| c.cost_weight = 1001, "cost_weight must be between 0.0 and 1.0");
    bad(&|c| c.latency_weight = 1001, "latency_weight must be between 0.0 and 1.0");
    bad(&|c| c.load_weight = -5, "load_weight must be between 0.0 and 1.0");
    bad(
        &|c| {
            c.cost_weight = 500;
            c.latency_weight = 300;
            c.load_weight = 300;
        },
        "Weights should sum to 1.0, got 1.100",
    );
    bad(
        &|c| {
            c.cost_weight = 400;
            c.latency_weight = 350;
            c.load_weight = 239;
        },
        "Weights should sum to 1.0, got 0.989",
    );
    let mut edge = SchedulerConfig::default();
    edge.load_weight = 260;
    assert!(SmartScheduler::new(edge).is_ok());
    edge.load_weight = 240;
    assert!(SmartScheduler::new(edge).is_ok());
    edge.load_weight = 261;
    assert!(SmartScheduler::new(edge).is_err());
}

#[test]
fn agent_score_follows_the_formula() {
    let config = SchedulerConfig::default();
    // 0.9 * 0.25 + 0.35 / 1.5 + 0.4 / 1.1 = 0.225 + 0.233333.. + 0.363636.. = 0.821969..
    assert_eq!(calculate_agent_score(&config, &agent("a", 100, 50, &[], 100, true)), 821_969);
    // free and idle and instant: every score is a whole
    assert_eq!(calculate_agent_score(&config, &agent("a", 0, 0, &[], 0, true)), 1_000_000);
    assert_eq!(calculate_agent_score(&config, &agent("a", -50, 0, &[], -3, true)), 1_000_000);
    assert_eq!(
        calculate_agent_score(&config, &agent("a", 5000, u64::MAX, &[], i64::MAX, true)),
        0
    );
}

#[test]
fn next_task_serves_priority_then_submission_order() {
    let mut scheduler = SmartScheduler::new(SchedulerConfig::default()).unwrap();
    for (id, p) in [("low", 1), ("high-1", 9), ("mid", 5), ("high-2", 9), ("neg", -4)] {
        scheduler.submit_task(task(id, p, &[])).unwrap();
    }
    let order: Vec<String> = (0..5).map(|_| scheduler.next_task().unwrap().id).collect();
    assert_eq!(order, vec!["high-1", "high-2", "mid", "low", "neg"]);
    assert!(scheduler.next_task().is_none());
}

#[test]
fn selection_needs_availability_and_all_capabilities() {
    let mut scheduler = SmartScheduler::new(SchedulerConfig::default()).unwrap();
    scheduler.register_agent(agent("off", 0, 0, &["a", "b"], 0, false)).unwrap();
    scheduler.register_agent(agent("partial", 0, 0, &["a"], 0, true)).unwrap();
    scheduler.register_agent(agent("slow", 900, 900, &["b", "a", "c"], 900, true)).unwrap();
    scheduler.register_agent(agent("fast", 100, 10, &["a", "b"], 10, true)).unwrap();
    scheduler.register_agent(agent("twin", 100, 10, &["a", "b"], 10, true)).unwrap();
    let t = task("t", 1, &["a", "b"]);
    assert_eq!(scheduler.select_agent_for_task(&t).unwrap().id, "fast");
    assert_eq!(scheduler.available_agents(), 4);
    assert_eq!(scheduler.select_agent_for_task(&task("t", 1, &[])).unwrap().id, "partial");
    scheduler.update_agent_status("fast", agent("fast", 1000, 10, &["a", "b"], 10, true)).unwrap();
    assert_eq!(scheduler.select_agent_for_task(&t).unwrap().id, "twin");
    match scheduler.update_agent_status("ghost", agent("ghost", 0, 0, &[], 0, true)) {
        Err(RLMError::SchedulingFailed(m)) => assert_eq!(m, "Agent ghost not found"),
        _ => panic!("expected SchedulingFailed"),
    }
}

#[test]
fn pool_is_bounded() {
    let config = SchedulerConfig { max_concurrent: 1, ..SchedulerConfig::default() };
    let mut scheduler = SmartScheduler::new(config).unwrap();
    assert!(scheduler.register_agent(agent("a", 0, 0, &[], 0, true)).is_ok());
    match scheduler.register_agent(agent("b", 0, 0, &[], 0, true)) {
        Err(RLMError::SchedulingFailed(m)) => assert_eq!(m, "Agent pool is full"),
        _ => panic!("expected SchedulingFailed"),
    }
    assert_eq!(scheduler.available_agents(), 1);
}

#[test]
fn windows_keep_the_last_thousand_samples() {
    let mut scheduler = SmartScheduler::new(SchedulerConfig::default()).unwrap();
    scheduler.record_task_completion(1, 2, 0, true);
    scheduler.record_task_completion(2, 3, 0, true);
    let stats = scheduler.stats();
    assert_eq!(stats.avg_wait_time_us, 1_500);
    assert_eq!(stats.avg_execution_time_us, 2_500);
    for _ in 0..1000 {
        scheduler.record_task_completion(10, 20, 1, false);
    }
    let stats = scheduler.stats();
    assert_eq!(stats.avg_wait_time_us, 10_000);
    assert_eq!(stats.avg_execution_time_us, 20_000);
    assert_eq!(stats.total_tasks, 1002);
    assert_eq!(stats.failed_tasks, 1000);
    assert_eq!(stats.total_cost, 1000);
    scheduler.record_task_completion(u64::MAX, u64::MAX, u64::MAX, true);
    assert_eq!(scheduler.stats().total_cost, u64::MAX);
    assert_eq!(SchedulingStats::default().total_tasks, 0);
}

#[test]
fn test_scheduler_initialization() {
    let config = SchedulerConfig::default();
    let scheduler = SmartScheduler::new(config).unwrap();

    assert_eq!(scheduler.pending_tasks(), 0);
    assert_eq!(scheduler.available_agents(), 0);
}

#[test]
fn test_agent_registration() {
    let config = SchedulerConfig::default();
    let mut scheduler = SmartScheduler::new(config).unwrap();

    let agent = AgentStatus {
        id: "test_agent".to_string(),
        load: 200,
        avg_latency_ms: 50,
        capabilities: vec!["web_search".to_string()],
        cost_per_op: 50,
        available: true,
    };

    let result = scheduler.register_agent(agent);
    assert!(result.is_ok());
    assert_eq!(scheduler.available_agents(), 1);
}

#[test]
fn test_task_submission() {
    let config = SchedulerConfig::default();
    let mut scheduler = SmartScheduler::new(config).unwrap();

    let task = ScheduledTask {
        id: "task1".to_string(),
        priority: 10,
        cost: 100,
        latency_ms: 100,
        required_capabilities: vec!["analysis".to_string()],
    };

    let result = scheduler.submit_task(task);
    assert!(result.is_ok());
    assert_eq!(scheduler.pending_tasks(), 1);
}

#[test]
fn test_agent_selection_with_capabilities() {
    let config = SchedulerConfig::default();
    let mut scheduler = SmartScheduler::new(config).unwrap();

    // Register agent with specific capabilities
    let agent = AgentStatus {
        id: "search_agent".to_string(),
        load: 100,
        avg_latency_ms: 40,
        capabilities: vec!["web_search".to_string(), "analysis".to_string()],
        cost_per_op: 100,
        available: true,
    };
    scheduler.register_agent(agent).ok();

    // Task requiring web_search
    let task = ScheduledTask {
        id: "search_task".to_string(),
        priority: 5,
        cost: 100,
        latency_ms: 50,
        required_capabilities: vec!["web_search".to_string()],
    };

    let selected = scheduler.select_agent_for_task(&task);
    assert!(selected.is_some());
    assert_eq!(selected.unwrap().id, "search_agent");
}

#[test]
fn test_task_completion_recording() {
    let config = SchedulerConfig::default();
    let mut scheduler = SmartScheduler::new(config).unwrap();

    // Record successful completions
    scheduler.record_task_completion(100, 200, 100, true);
    scheduler.record_task_completion(150, 250, 100, true);

    let stats = scheduler.stats();
    assert_eq!(stats.total_tasks, 2);
    assert_eq!(stats.completed_tasks, 2);
    assert_eq!(stats.failed_tasks, 0);
    assert_eq!(stats.total_cost, 200);
}

#[test]
fn test_scheduler_statistics_reset() {
    let config = SchedulerConfig::default();
    let mut scheduler = SmartScheduler::new(config).unwrap();

    scheduler.record_task_completion(100, 200, 100, true);
    let stats1 = scheduler.stats();
    assert!(stats1.total_tasks > 0);

    scheduler.reset_stats();
    let stats2 = scheduler.stats();
    assert_eq!(stats2.total_tasks, 0);
}

#[test]
fn close_scores_are_told_apart() {
    let config = SchedulerConfig::default();
    let mut scheduler = SmartScheduler::new(config).unwrap();
    scheduler.register_agent(agent("slower", 0, 11_000, &[], 0, true)).unwrap();
    scheduler.register_agent(agent("faster", 0, 10_000, &[], 0, true)).unwrap();
    scheduler.register_agent(agent("same", 0, 10_000, &[], 0, true)).unwrap();
    let t = task("t", 1, &[]);
    assert_eq!(scheduler.select_agent_for_task(&t).unwrap().id, "faster");

    let far = agent("far", 0, 1_000_000_000_000_000_001, &[], 7, true);
    let near = agent("near", 0, 1_000_000_000_000_000_000, &[], 7, true);
    assert!(outranks(&config, &near, &far));
    assert!(!outranks(&config, &far, &near));
    assert!(!outranks(&config, &near, &near));
    assert_eq!(calculate_agent_score(&config, &near), calculate_agent_score(&config, &far));

    let cheap = agent("cheap", 500, u64::MAX, &[], i64::MAX - 1, true);
    let dear = agent("dear", 500, u64::MAX, &[], i64::MAX, true);
    assert!(outranks(&config, &cheap, &dear));
    assert!(!outranks(&config, &dear, &cheap));

    // a free operation scores a whole, the smallest cost a little less
    let free = agent("free", 0, 0, &[], 0, true);
    let penny = agent("penny", 0, 0, &[], 1, true);
    assert!(outranks(&config, &free, &penny));
    assert_eq!(calculate_agent_score(&config, &penny), 250_000 + 350_000 + 399_600);
    // load decides before the fractions are looked at
    assert!(outranks(&config, &agent("idle", 0, 900, &[], 9, true), &agent("busy", 1, 900, &[], 9, true)));
    // 0.35 / 2 + 0.4 / 2 against 0.35 / 3 + 0.4 / 1.5
    let a = agent("a", 1000, 100, &[], 1000, true);
    let b = agent("b", 1000, 200, &[], 500, true);
    assert_eq!(calculate_agent_score(&config, &a), 375_000);
    assert_eq!(calculate_agent_score(&config, &b), 383_333);
    assert!(outranks(&config, &b, &a));
}
