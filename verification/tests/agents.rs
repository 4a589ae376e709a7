use universal_openai_rs::{AgentChainRun, AgentRun, AgentSpec, ApiClient, ClientError, Config};

#[test]
fn builds_agent_specs() {
    let spec = AgentSpec::new("researcher")
        .model("gpt-4o-mini")
        .instructions("Find concise facts.")
        .temperature(0.2f32.to_bits())
        .max_tokens(256);

    assert_eq!(spec.name, "researcher");
    assert_eq!(spec.model.as_deref(), Some("gpt-4o-mini"));
    assert_eq!(spec.instructions.as_deref(), Some("Find concise facts."));
}

#[test]
fn agents_registry_stores_named_specs() {
    let client = ApiClient::new(Config::new("test-key").with_default_model("gpt-4o-mini")).unwrap();
    let agents = client
        .agents()
        .simple("agent1", "Answer as a practical engineer.")
        .add(client.agent("agent2").instructions("Review the answer critically."));

    assert_eq!(
        agents.get("agent1").unwrap().instructions.as_deref(),
        Some("Answer as a practical engineer.")
    );
    assert_eq!(
        agents.get("agent2").unwrap().instructions.as_deref(),
        Some("Review the answer critically.")
    );
}

#[test]
fn adding_an_agent_twice_keeps_the_last_spec() {
    let client = ApiClient::new(Config::new("test-key")).unwrap();
    let agents = client
        .agents()
        .simple("writer", "First answer.")
        .simple("writer", "Second answer.");

    assert_eq!(agents.get("writer").unwrap().instructions.as_deref(), Some("Second answer."));
    assert!(agents.get("critic").is_none());
}

#[test]
fn client_agent_is_a_bare_spec() {
    let client = ApiClient::new(Config::new("test-key").with_default_model("gpt-4o-mini")).unwrap();
    let spec = client.agent("planner");

    assert_eq!(spec.name, "planner");
    assert_eq!(spec.model, None);
    assert_eq!(spec.instructions, None);
}

#[test]
fn unknown_agent_spec_is_a_bare_spec_of_that_name() {
    let client = ApiClient::new(Config::new("test-key")).unwrap();
    let agents = client.agents();
    let spec = agents.spec_for("ghost");

    assert_eq!(spec.name, "ghost");
    assert_eq!(spec.instructions, None);
}

#[test]
fn agent_prompt_carries_instructions_and_task() {
    let client = ApiClient::new(Config::new("test-key")).unwrap();
    let agents = client.agents().default_model("gpt-4o-mini");
    let spec = AgentSpec::new("coder").instructions("Write Rust.").max_tokens(100);
    let request = agents
        .prompt_for(spec, "Sort a list.")
        .unwrap()
        .into_chat()
        .unwrap()
        .build()
        .unwrap();

    assert_eq!(request.model, "gpt-4o-mini");
    assert_eq!(request.messages.len(), 2);
    assert_eq!(request.messages[0].content.as_text(), Some("Write Rust."));
    assert_eq!(request.messages[1].content.as_text(), Some("Sort a list."));
    assert_eq!(request.max_tokens, Some(100));
}

#[test]
fn agent_chain_passes_each_output_to_the_next_task() {
    let chain = AgentChainRun::begin("Plan a trip.");
    assert_eq!(chain.next_task(), "Plan a trip.");

    let chain = chain.record(AgentRun {
        agent: "planner".to_string(),
        task: "Plan a trip.".to_string(),
        output: "Day 1: Madrid.".to_string(),
    });
    assert_eq!(chain.next_task(), "Day 1: Madrid.");
    assert_eq!(chain.steps.len(), 1);
    assert_eq!(chain.initial_task, "Plan a trip.");
    assert_eq!(chain.output, "Day 1: Madrid.");
}

#[test]
fn agent_chain_ends_at_the_first_failed_run() {
    let chain = AgentChainRun::begin("Plan a trip.");
    let run = AgentRun {
        agent: "planner".to_string(),
        task: "Plan a trip.".to_string(),
        output: "Day 1: Madrid.".to_string(),
    };

    let chain = chain.record_result(Ok(run.clone())).unwrap();
    assert_eq!(chain.steps, vec![run]);
    assert_eq!(chain.next_task(), "Day 1: Madrid.");

    let failed = chain.record_result(Err(ClientError::MissingText));
    assert!(matches!(failed, Err(ClientError::MissingText)));
}
