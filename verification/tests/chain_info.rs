use demux_rs::eosio::ChainInfo;

#[test]
fn chain_info_carries_the_node_report() {
    let info = ChainInfo {
        server_version: "deadbeef".to_string(),
        chain_id: "aca376f2".to_string(),
        head_block_num: 1234,
        last_irreversible_block_num: 1200,
        last_irreversible_block_id: "000004b0".to_string(),
        head_block_id: "000004d2".to_string(),
        head_block_time: 1_500_000_000,
        head_block_producer: "eosio".to_string(),
        virtual_block_cpu_limit: 200_000,
        virtual_block_net_limit: 1_048_576,
        block_cpu_limit: 199_900,
        block_net_limit: 1_048_576,
        server_version_string: "v1.0.0".to_string(),
    };
    assert_eq!(info.head_block_num, 1234);
    assert!(info.last_irreversible_block_num <= info.head_block_num);
    assert_eq!(info.head_block_producer, "eosio");
}
