use obscura::agent::client::AgentClient;
use obscura::agent::protocol::{AgentRequest, AgentResponse};
use obscura::agent::server::AgentServer;
use obscura::crypto::aead::AeadKey;
use obscura::util::errors::ObscuraError;

const MINUTE: u64 = 60_000_000_000;

fn store(server: &mut AgentServer, path: &str, byte: u8, now: u64) -> AgentResponse {
    server.handle_request(
        AgentRequest::StoreDek { vault_path: path.to_string(), dek: vec![byte; 32] },
        now,
    )
}

fn get(server: &mut AgentServer, path: &str, now: u64) -> AgentResponse {
    server.handle_request(AgentRequest::GetDek { vault_path: path.to_string() }, now)
}

#[test]
fn client_requests() {
    assert_eq!(
        AgentClient::get_dek_request("/v"),
        AgentRequest::GetDek { vault_path: "/v".to_string() }
    );
    assert_eq!(
        AgentClient::store_dek_request("/v", &AeadKey::from_bytes([4u8; 32])),
        AgentRequest::StoreDek { vault_path: "/v".to_string(), dek: vec![4u8; 32] }
    );
}

#[test]
fn client_reads_ping_replies() {
    assert!(AgentClient::is_running(true, &Ok(AgentResponse::Okay)));
    assert!(!AgentClient::is_running(false, &Ok(AgentResponse::Okay)));
    assert!(!AgentClient::is_running(true, &Ok(AgentResponse::NotFound)));
    assert!(!AgentClient::is_running(true, &Err(ObscuraError::AgentNotRunning)));
    assert!(!AgentClient::is_running(true, &Ok(AgentResponse::Error("x".to_string()))));
}

#[test]
fn client_reads_key_replies() {
    let key = AgentClient::get_dek(Ok(AgentResponse::Dek { dek: vec![7u8; 32] })).unwrap().unwrap();
    assert_eq!(key.as_bytes(), &[7u8; 32]);
    assert!(matches!(AgentClient::get_dek(Ok(AgentResponse::NotFound)), Ok(None)));
    assert!(matches!(
        AgentClient::get_dek(Ok(AgentResponse::Dek { dek: vec![7u8; 31] })),
        Err(ObscuraError::DecryptionFailed)
    ));
    assert!(matches!(
        AgentClient::get_dek(Ok(AgentResponse::Okay)),
        Err(ObscuraError::DecryptionFailed)
    ));
    assert!(matches!(
        AgentClient::get_dek(Ok(AgentResponse::Error("boom".to_string()))),
        Err(ObscuraError::DecryptionFailed)
    ));
    assert!(matches!(
        AgentClient::get_dek(Err(ObscuraError::AgentNotRunning)),
        Err(ObscuraError::AgentNotRunning)
    ));
}

#[test]
fn client_reads_acknowledgements() {
    assert_eq!(AgentClient::store_dek(Ok(AgentResponse::Okay)), Ok(()));
    assert_eq!(AgentClient::shutdown(Ok(AgentResponse::Okay)), Ok(()));
    assert_eq!(
        AgentClient::store_dek(Ok(AgentResponse::NotFound)),
        Err(ObscuraError::DecryptionFailed)
    );
    assert_eq!(
        AgentClient::shutdown(Ok(AgentResponse::Error("no".to_string()))),
        Err(ObscuraError::DecryptionFailed)
    );
    assert_eq!(
        AgentClient::store_dek(Err(ObscuraError::AgentNotRunning)),
        Err(ObscuraError::AgentNotRunning)
    );
    assert_eq!(
        AgentClient::shutdown(Err(ObscuraError::DecryptionFailed)),
        Err(ObscuraError::DecryptionFailed)
    );
}

#[test]
fn server_stores_and_returns_keys() {
    let mut server = AgentServer::new(1);
    assert_eq!(server.len(), 0);
    assert_eq!(get(&mut server, "/v", 0), AgentResponse::NotFound);
    assert_eq!(store(&mut server, "/v", 9, 0), AgentResponse::Okay);
    assert_eq!(get(&mut server, "/v", 1), AgentResponse::Dek { dek: vec![9u8; 32] });
    assert_eq!(get(&mut server, "/other", 1), AgentResponse::NotFound);
    assert_eq!(store(&mut server, "/v", 8, 2), AgentResponse::Okay);
    assert_eq!(get(&mut server, "/v", 3), AgentResponse::Dek { dek: vec![8u8; 32] });
    assert_eq!(server.len(), 1);
}

#[test]
fn server_rejects_keys_of_wrong_length() {
    let mut server = AgentServer::new(1);
    let reply = server.handle_request(
        AgentRequest::StoreDek { vault_path: "/v".to_string(), dek: vec![1u8; 16] },
        0,
    );
    assert_eq!(reply, AgentResponse::Error("Invalid DEK length".to_string()));
    assert_eq!(server.len(), 0);
}

#[test]
fn server_ping_and_shutdown() {
    let mut server = AgentServer::new(1);
    assert!(!server.is_shutdown());
    assert_eq!(server.handle_request(AgentRequest::Ping, 0), AgentResponse::Okay);
    assert!(!server.is_shutdown());
    assert_eq!(server.handle_request(AgentRequest::Shutdown, 0), AgentResponse::Okay);
    assert!(server.is_shutdown());
}

#[test]
fn server_answers_undecodable_requests_with_a_failure() {
    let mut server = AgentServer::new(1);
    assert_eq!(server.handle_connection(None, 0), Err(ObscuraError::DecryptionFailed));
    assert_eq!(server.handle_connection(Some(AgentRequest::Ping), 0), Ok(AgentResponse::Okay));
}

#[test]
fn sweep_drops_entries_idle_for_the_timeout() {
    let mut server = AgentServer::new(1);
    store(&mut server, "/a", 1, 0);
    store(&mut server, "/b", 2, 30_000_000_000);
    server.sweep(MINUTE - 1);
    assert_eq!(server.len(), 2);
    server.sweep(MINUTE);
    assert_eq!(server.len(), 1);
    assert_eq!(get(&mut server, "/a", MINUTE), AgentResponse::NotFound);
    assert_eq!(get(&mut server, "/b", MINUTE), AgentResponse::Dek { dek: vec![2u8; 32] });
    server.sweep(2 * MINUTE - 1);
    assert_eq!(server.len(), 1);
    server.sweep(2 * MINUTE);
    assert_eq!(server.len(), 0);
}

#[test]
fn a_hit_renews_the_entry() {
    let mut server = AgentServer::new(1);
    store(&mut server, "/a", 1, 0);
    assert_eq!(get(&mut server, "/a", MINUTE - 1), AgentResponse::Dek { dek: vec![1u8; 32] });
    server.sweep(MINUTE + 5);
    assert_eq!(server.len(), 1);
    assert_eq!(get(&mut server, "/a", 2 * MINUTE - 2), AgentResponse::Dek { dek: vec![1u8; 32] });
    server.sweep(3 * MINUTE - 2);
    assert_eq!(server.len(), 0);
}

#[test]
fn a_stale_key_is_not_handed_out() {
    let mut server = AgentServer::new(1);
    store(&mut server, "/a", 1, 0);
    store(&mut server, "/b", 2, 0);
    assert_eq!(get(&mut server, "/a", MINUTE - 1), AgentResponse::Dek { dek: vec![1u8; 32] });
    assert_eq!(get(&mut server, "/b", MINUTE), AgentResponse::NotFound);
    assert_eq!(server.len(), 1);
    assert_eq!(get(&mut server, "/b", 0), AgentResponse::NotFound);
    assert_eq!(get(&mut server, "/a", 2 * MINUTE - 1), AgentResponse::NotFound);
    assert_eq!(server.len(), 0);
    let mut never = AgentServer::new(0);
    store(&mut never, "/a", 1, 5);
    assert_eq!(get(&mut never, "/a", 5), AgentResponse::NotFound);
    assert_eq!(
        never.handle_connection(Some(AgentRequest::GetDek { vault_path: "/a".to_string() }), 5),
        Ok(AgentResponse::NotFound)
    );
}

#[test]
fn sweep_with_a_clock_before_the_last_use_keeps_entries() {
    let mut server = AgentServer::new(1);
    store(&mut server, "/a", 1, 10 * MINUTE);
    server.sweep(0);
    assert_eq!(server.len(), 1);
    let mut never = AgentServer::new(0);
    store(&mut never, "/a", 1, 0);
    never.sweep(0);
    assert_eq!(never.len(), 0);
    let mut forever = AgentServer::new(u64::MAX);
    store(&mut forever, "/a", 1, 0);
    forever.sweep(u64::MAX - 1);
    assert_eq!(forever.len(), 1);
}
