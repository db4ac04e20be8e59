use std::sync::{Arc, Mutex};

use user_store::store::UserStore;
use user_store::user::CreateUser;

#[test]
fn concurrent_creates_get_unique_contiguous_ids() {
    let store = Arc::new(Mutex::new(UserStore::new()));
    let runtime = tokio::runtime::Builder::new_multi_thread()
        .worker_threads(4)
        .build()
        .unwrap();
    let mut ids: Vec<u32> = runtime.block_on(async {
        let mut tasks = Vec::new();
        for k in 0..50u32 {
            let store = Arc::clone(&store);
            tasks.push(tokio::spawn(async move {
                let payload = CreateUser {
                    name: format!("user{}", k),
                    email: format!("u{}@x.com", k),
                };
                let mut guard = store.lock().unwrap();
                guard.add_user(payload).id
            }));
        }
        let mut ids = Vec::new();
        for task in tasks {
            ids.push(task.await.unwrap());
        }
        ids
    });
    ids.sort();
    assert_eq!(ids, (1..=50u32).collect::<Vec<u32>>());

    let users = store.lock().unwrap().get_users();
    assert_eq!(users.len(), 50);
    for (position, user) in users.iter().enumerate() {
        assert_eq!(user.id as usize, position + 1);
    }
    let mut names: Vec<String> = users.iter().map(|u| u.name.clone()).collect();
    names.sort();
    let mut sent: Vec<String> = (0..50u32).map(|k| format!("user{}", k)).collect();
    sent.sort();
    assert_eq!(names, sent);
}
