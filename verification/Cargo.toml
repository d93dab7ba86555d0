[package]
name = "security_token"
version = "0.1.0"
edition = "2021"
publish = false

[dependencies]
pinocchio = "=0.9.3"
pinocchio-pubkey = "=0.3.0"
pinocchio-system = "=0.3.0"
pinocchio-token = "=0.4.0"
pinocchio-token-2022 = "=0.1.0"
pinocchio-associated-token-account = "=0.2.0"
pinocchio-log = "=0.5.1"
solana-keccak-hasher = { version = "=3.1.0", features = ["sha3"] }
solana-pubkey = { version = "=4.4.0", features = ["curve25519"] }
bs58 = "=0.5.1"
thiserror = "=2.0.21"
bytemuck = "=1.25.2"
spl-pod = "=0.7.4"
shank = "=0.4.9"
spl-tlv-account-resolution = { version = "=0.11.4", default-features = false }

[dev-dependencies]
spl-token-metadata-interface = { version = "=1.0.1", default-features = false }
