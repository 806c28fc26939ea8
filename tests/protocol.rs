use lumenpulse::{ContributorRegistryContract, CrowdfundVaultContract, Identity, Invocation};

fn token_balance(inv: &Invocation, token: &Identity, who: &Identity, minted: i128) -> i128 {
    let mut balance = minted;
    for t in &inv.transfers {
        if t.token == *token && t.from == *who {
            balance -= t.amount;
        }
        if t.token == *token && t.to == *who {
            balance += t.amount;
        }
    }
    balance
}

#[test]
fn test_lumenpulse_protocol_e2e() {
    let admin = Identity::from_str("admin");
    let contributor = Identity::from_str("contributor");
    let project_owner = Identity::from_str("project_owner");
    let token_id = Identity::from_str("lumen");

    let mut registry = ContributorRegistryContract::new();
    let mut vault = CrowdfundVaultContract::new();
    let mut reg_inv = Invocation::new(0, Identity::from_str("registry"));
    let mut vault_inv = Invocation::new(0, Identity::from_str("vault"));

    registry.initialize(&mut reg_inv, admin.clone()).unwrap();
    vault.initialize(&mut vault_inv, admin.clone()).unwrap();

    registry.register_contributor(&mut reg_inv, contributor.clone(), String::from("cedarich")).unwrap();
    let minted: i128 = 10000;

    let project_id = vault
        .create_project(&mut vault_inv, project_owner.clone(), String::from("DevTools"), 5000, token_id.clone())
        .unwrap();
    vault.deposit(&mut vault_inv, contributor.clone(), project_id, 3000).unwrap();

    assert_eq!(token_balance(&vault_inv, &token_id, &contributor, minted), 7000);
    assert_eq!(vault.get_balance(project_id), Ok(3000));

    vault.approve_milestone(&mut vault_inv, admin, project_id).unwrap();
    vault.withdraw(&mut vault_inv, project_id, 2000).unwrap();

    assert_eq!(token_balance(&vault_inv, &token_id, &project_owner, 0), 2000);
}
