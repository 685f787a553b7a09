//! The client that asks one node and sends through another.
use orbit_link::async_client::composite_rpc_client::{
    CompositeRpcClient, Json, NotSent, RpcPrioritizationFee, SendTransactionConfig, FEE_PERCENTILE,
};
use orbit_link::types::{CommitmentConfig, CommitmentLevel, Pubkey};

type Node = (String, CommitmentConfig);

fn client() -> CompositeRpcClient<Node> {
    CompositeRpcClient::new(
        "asks".to_string(),
        "sends".to_string(),
        CommitmentConfig { commitment: CommitmentLevel::Confirmed },
        |url: String, config: CommitmentConfig| (url, config),
    )
}

fn config(max_retries: Option<usize>) -> SendTransactionConfig {
    SendTransactionConfig {
        skip_preflight: true,
        preflight_commitment: Some(CommitmentLevel::Finalized),
        max_retries,
    }
}

fn paid(fees: &[u64]) -> Result<Vec<RpcPrioritizationFee>, String> {
    Ok(fees
        .iter()
        .map(|fee| RpcPrioritizationFee { slot: 1, prioritization_fee: *fee })
        .collect())
}

#[test]
fn both_nodes_are_connected_at_one_commitment() {
    let client = client();
    assert_eq!(client.rpc_client().0, "asks");
    assert_eq!(client.rpc_client().1.commitment, CommitmentLevel::Confirmed);
    let (sender, _) = client.send_transaction_no_retry_no_preflight();
    assert_eq!(sender.0, "sends");
    assert_eq!(sender.1.commitment, CommitmentLevel::Confirmed);
}

#[test]
fn simulated_transaction_is_sent_through_the_sender() {
    let client = client();
    let (sender, order) = client.send_transaction::<u32, String>(Ok(None)).unwrap();
    assert_eq!(sender.0, "sends");
    assert_eq!(order, config(None));
    let (sender, order) = client.send_transaction_no_retry::<u32, String>(Ok(None)).unwrap();
    assert_eq!(sender.0, "sends");
    assert_eq!(order, config(Some(0)));
    let (_, order) = client.send_transaction_no_retry_no_preflight();
    assert_eq!(order, config(Some(0)));
}

#[test]
fn failed_simulation_is_not_sent() {
    let client = client();
    assert_eq!(
        client.send_transaction::<u32, String>(Ok(Some(6))).err(),
        Some(NotSent::Simulation(6))
    );
    assert_eq!(
        client.send_transaction_no_retry::<u32, String>(Ok(Some(7))).err(),
        Some(NotSent::Simulation(7))
    );
}

#[test]
fn transaction_without_simulation_is_not_sent() {
    let client = client();
    assert_eq!(
        client.send_transaction::<u32, &str>(Err("down")).err(),
        Some(NotSent::Client("down"))
    );
    assert_eq!(
        client.send_transaction_no_retry::<u32, &str>(Err("down")).err(),
        Some(NotSent::Client("down"))
    );
}

#[test]
fn fees_are_asked_for_by_address() {
    let token = Pubkey([
        6, 221, 246, 225, 215, 101, 161, 147, 217, 203, 225, 70, 206, 235, 121, 172, 28, 180, 133,
        237, 95, 91, 55, 145, 58, 140, 245, 133, 126, 255, 0, 169,
    ]);
    let mut last = [0; 32];
    last[31] = 7;
    let params = client().recent_fees_params(&[
        token,
        Pubkey([0; 32]),
        Pubkey(last),
        Pubkey([255; 32]),
    ]);
    let text = |address: &str| Json::Text(address.to_string());
    assert_eq!(
        params,
        Json::Array(vec![
            Json::Array(vec![Json::Array(vec![
                text("TokenkegQfeZyiNwAJbNbGKPFXCWuBvf9Ss623VQ5DA"),
                text("11111111111111111111111111111111"),
                text("11111111111111111111111111111118"),
                text("JEKNVnkbo3jma5nREBBJCDoXFVeKkD56V3xKrvRmWxFG"),
            ])]),
            Json::Object(vec![("percentile".to_string(), Json::Number(2500))]),
        ])
    );
    assert_eq!(FEE_PERCENTILE, 2500);
}

#[test]
fn fees_can_be_asked_for_without_accounts() {
    assert_eq!(
        client().recent_fees_params(&[]),
        Json::Array(vec![
            Json::Array(vec![Json::Array(vec![])]),
            Json::Object(vec![("percentile".to_string(), Json::Number(2500))]),
        ])
    );
}

#[test]
fn highest_fee_is_recommended() {
    let client = client();
    assert_eq!(
        client.get_recommended_micro_lamport_fee_for_accounts(paid(&[3, 9, 4])),
        Ok(9)
    );
    assert_eq!(client.get_recommended_micro_lamport_fee_for_accounts(paid(&[5])), Ok(5));
    assert_eq!(client.get_recommended_micro_lamport_fee_for_accounts(paid(&[])), Ok(0));
    assert_eq!(
        client.get_recommended_micro_lamport_fee_for_accounts(Err("down")),
        Err("down")
    );
}
