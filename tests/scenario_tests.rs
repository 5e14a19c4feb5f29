use aiva::executor::{connection_probe, network_address, network_request, probe_succeeded};
use aiva::templates::VMTemplate;
use aiva::{AivaError, CommandPool, ConnectionType, StopOutcome, VMOrchestrator, VMState, VsockExecutor};
use std::time::Duration;
use tokio::io::{AsyncReadExt, AsyncWriteExt};

fn runtime() -> tokio::runtime::Runtime {
    tokio::runtime::Builder::new_current_thread().enable_all().build().unwrap()
}

async fn slow_platform_stop() -> aiva::Result<()> {
    tokio::time::sleep(Duration::from_secs(40)).await;
    Ok(())
}

#[test]
fn stop_past_its_bound_still_settles() {
    let rt = runtime();
    let mut o = VMOrchestrator::new();
    let id = o.begin_create("slow".to_string(), VMTemplate::python3_uv().base_config).unwrap();
    let mut created = o.get_vm(id).unwrap().clone();
    created.state = VMState::Running;
    o.finish_create(id, Ok(created)).unwrap();
    o.begin_stop(id).unwrap();
    assert_eq!(o.get_vm(id).unwrap().state, VMState::Stopping);
    let outcome = rt.block_on(async {
        match tokio::time::timeout(Duration::from_millis(50), slow_platform_stop()).await {
            Ok(Ok(())) => StopOutcome::Completed,
            Ok(Err(e)) => StopOutcome::Failed(e),
            Err(_) => StopOutcome::TimedOut,
        }
    });
    assert!(matches!(outcome, StopOutcome::TimedOut));
    let r = o.finish_stop(id, outcome);
    assert!(matches!(r, Err(AivaError::PlatformError { ref platform, .. }) if platform == "timeout"));
    assert_eq!(o.get_vm(id).unwrap().state, VMState::Stopped);
}

/// The guest's command agent: reads one request line, answers what an
/// `echo` of it prints, and closes the channel.
async fn guest_agent(mut channel: tokio::io::DuplexStream) {
    let mut line = Vec::new();
    let mut byte = [0u8; 1];
    loop {
        let n = channel.read(&mut byte).await.unwrap();
        if n == 0 || byte[0] == b'\n' {
            break;
        }
        line.push(byte[0]);
    }
    let text = String::from_utf8(line).unwrap();
    let reply = text.trim_start_matches("echo ").trim_matches('\'').to_string();
    channel.write_all(reply.as_bytes()).await.unwrap();
}

/// One request over a fresh channel to the guest agent.
async fn send(command: &str) -> String {
    let (mut host_end, guest_end) = tokio::io::duplex(4096);
    let agent = tokio::spawn(guest_agent(guest_end));
    host_end.write_all(network_request(command).as_bytes()).await.unwrap();
    let mut out = String::new();
    host_end.read_to_string(&mut out).await.unwrap();
    agent.await.unwrap();
    out
}

#[test]
fn alice_lifecycle_with_an_echoing_guest() {
    let rt = runtime();
    let mut o = VMOrchestrator::new();
    let mut config = VMTemplate::python3_uv().base_config;
    config.cpus = 2;
    config.memory_mb = 4096;
    let id = o.begin_create("alice".to_string(), config).unwrap();
    assert_eq!(o.get_vm(id).unwrap().state, VMState::Creating);
    let mut from_platform = o.get_vm(id).unwrap().clone();
    from_platform.state = VMState::Stopped;
    o.finish_create(id, Ok(from_platform)).unwrap();

    let alice = o.get_vm_by_name("alice").unwrap().id;
    let mut starts = 0;
    o.check_start(alice).unwrap();
    starts += 1;
    o.update_vm_state(alice, VMState::Running).unwrap();
    assert_eq!(starts, 1);
    assert_eq!(o.get_vm(alice).unwrap().state, VMState::Running);

    let output = rt.block_on(async {
        let port: u16 = 5555;
        let mut pool = CommandPool::new();
        let executor = VsockExecutor::new(
            "alice".to_string(),
            ConnectionType::Network { host: "127.0.0.1".to_string(), port },
        );
        assert_eq!(network_address("127.0.0.1", port), "127.0.0.1:5555");
        let probe = send(connection_probe()).await;
        assert!(probe_succeeded(&Ok(probe.clone())));
        pool.register_vm(executor, Ok(probe)).unwrap();
        o.check_execute(alice).unwrap();
        let ex = pool.executor_for("alice").unwrap();
        match ex.transport() {
            ConnectionType::Network { port: 5555, .. } => send("echo hi").await,
            other => panic!("unexpected transport {:?}", other),
        }
    });
    assert_eq!(output, "hi");

    o.begin_stop(alice).unwrap();
    o.finish_stop(alice, StopOutcome::Completed).unwrap();
    assert_eq!(o.get_vm(alice).unwrap().state, VMState::Stopped);
    o.remove_stopped(alice).unwrap();
    assert!(o.get_vm_by_name("alice").is_none());
    assert!(o.list_vms().is_empty());
}
