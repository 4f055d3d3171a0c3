use beetle::store_client::links_answer;

#[test]
fn no_links_is_no_answer() {
    assert_eq!(links_answer::<u64>(vec![]), None);
    assert_eq!(links_answer(vec![3u64, 1]), Some(vec![3, 1]));
}
