use mygpoclient::client::AuthenticatedClient;
use mygpoclient::client::DeviceClient;

#[test]
fn clients_construct() {
    let _user_client = AuthenticatedClient::new("user", "pass");
    let device_client = DeviceClient::new("user", "pass", "phone-1");
    let _borrowed = device_client.user_client();
    let _copy = device_client.clone();
}
