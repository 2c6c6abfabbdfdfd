use unibus::system::{start, RabbitClient};

#[test]
fn client_takes_connections_until_shutdown() {
    let mut client: RabbitClient<u32> = start();
    assert!(client.is_accepting());
    assert_eq!(client.len(), 0);
    assert_eq!(client.connect(1), Ok(()));
    assert_eq!(client.connect(2), Ok(()));
    assert_eq!(client.len(), 2);
    assert_eq!(client.shutdown(), vec![1, 2]);
    assert!(!client.is_accepting());
    assert_eq!(client.len(), 0);
}

#[test]
fn client_refuses_connections_after_shutdown() {
    let mut client: RabbitClient<u32> = start();
    client.shutdown();
    assert_eq!(client.connect(7), Err(7));
    assert_eq!(client.len(), 0);
    assert_eq!(client.shutdown(), Vec::<u32>::new());
}
