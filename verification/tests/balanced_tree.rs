use beetle::balanced_tree::{Link, Phase, TreeAction, TreeBuilder, TreeEvent};

/// A node handed out by the builder: a leaf with its chunk number, or a stem
/// with its children.
#[derive(Debug, Clone, PartialEq, Eq)]
enum Node {
    Leaf(usize),
    Stem(Vec<Node>),
}

fn encoded_len(node: &Node) -> u64 {
    match node {
        Node::Leaf(_) => 8,
        Node::Stem(children) => 4 + 3 * children.len() as u64,
    }
}

/// Drives the builder over `num_chunks` chunks, encoding nodes as `Node`s
/// whose identifier is their place in the output.
fn run(num_chunks: usize, degree: usize) -> (Vec<Node>, Vec<Link>) {
    let mut b = TreeBuilder::new(degree);
    let mut out: Vec<Node> = Vec::new();
    let mut root_links = Vec::new();
    let mut chunk = 0;
    let mut action = if num_chunks > 0 { b.step(TreeEvent::Chunk) } else { b.step(TreeEvent::End) };
    loop {
        match action {
            TreeAction::EncodeStem(links) => {
                let node = Node::Stem(links.iter().map(|l| out[l.cid as usize].clone()).collect());
                let len = encoded_len(&node);
                if b.phase() == Phase::Finishing {
                    root_links = links.clone();
                }
                out.push(node);
                action = b.step(TreeEvent::StemEncoded { cid: (out.len() - 1) as u64, encoded_len: len });
            }
            TreeAction::EncodeLeaf => {
                let node = Node::Leaf(chunk);
                chunk += 1;
                let len = encoded_len(&node);
                out.push(node);
                action = b.step(TreeEvent::LeafEncoded { cid: (out.len() - 1) as u64, encoded_len: len });
            }
            TreeAction::AwaitChunk => {
                action = if chunk < num_chunks { b.step(TreeEvent::Chunk) } else { b.step(TreeEvent::End) };
            }
            TreeAction::Done => break,
        }
    }
    (out, root_links)
}

fn build_expect_tree(num_chunks: usize, degree: usize) -> Vec<Vec<Node>> {
    let mut tree: Vec<Vec<Node>> = vec![vec![]];
    if num_chunks / degree == 0 {
        tree[0].push(Node::Leaf(0));
        return tree;
    }
    for n in 0..num_chunks {
        tree[0].push(Node::Leaf(n));
    }
    while tree.last().unwrap().len() > 1 {
        let prev_layer = tree.last().unwrap().clone();
        let layer: Vec<Node> = prev_layer.chunks(degree).map(|c| Node::Stem(c.to_vec())).collect();
        tree.push(layer);
    }
    tree
}

fn build_expect(num_chunks: usize, degree: usize) -> Vec<Node> {
    let tree = build_expect_tree(num_chunks, degree);
    let mut out = vec![];
    if num_chunks == 1 {
        out.push(tree[0][0].clone());
        return out;
    }
    let mut counts = vec![0; tree.len()];
    for leaf in tree[0].iter() {
        out.push(leaf.clone());
        counts[0] += 1;
        let mut push = counts[0] % degree == 0;
        for (num_layer, count) in counts.iter_mut().enumerate() {
            if num_layer == 0 {
                continue;
            }
            if !push {
                break;
            }
            out.push(tree[num_layer][*count].clone());
            *count += 1;
            if *count % degree != 0 {
                push = false;
            }
        }
    }
    for (num_layer, count) in counts.into_iter().enumerate() {
        if num_layer == 0 {
            continue;
        }
        for node in tree[num_layer].iter().skip(count) {
            out.push(node.clone());
        }
    }
    out
}

fn ensure_equal(num_chunks: usize, degree: usize) {
    let expect = build_expect(num_chunks, degree);
    let (got, root_links) = run(num_chunks, degree);
    assert_eq!(expect, got);
    // the root's links account for every other node
    let expected_tsize: u64 = got[..got.len() - 1].iter().map(encoded_len).sum();
    let got_tsize: u64 = root_links.iter().map(|l| l.tsize).sum();
    assert_eq!(expected_tsize, got_tsize);
}

#[test]
fn balanced_tree_test_leaf() {
    ensure_equal(1, 3);
}

#[test]
fn balanced_tree_test_height_one() {
    ensure_equal(3, 3);
}

#[test]
fn balanced_tree_test_height_two_full() {
    ensure_equal(9, 3);
}

#[test]
fn balanced_tree_test_height_two_not_full() {
    ensure_equal(10, 3);
}

#[test]
fn balanced_tree_test_height_three() {
    ensure_equal(17, 3);
}

#[test]
fn balanced_tree_test_large() {
    ensure_equal(78, 3);
}

#[test]
fn stems_never_exceed_the_degree() {
    for degree in 2..6 {
        for chunks in 1..40 {
            let (got, _) = run(chunks, degree);
            for node in got {
                if let Node::Stem(children) = node {
                    assert!(children.len() <= degree);
                }
            }
        }
    }
}

#[test]
fn empty_input_gives_one_empty_stem() {
    let (got, root_links) = run(0, 3);
    assert_eq!(got, vec![Node::Stem(vec![])]);
    assert!(root_links.is_empty());
}

#[test]
fn stem_sizes_add_up() {
    let mut b = TreeBuilder::new(2);
    assert_eq!(b.step(TreeEvent::Chunk), TreeAction::EncodeLeaf);
    assert_eq!(b.step(TreeEvent::LeafEncoded { cid: 1, encoded_len: 10 }), TreeAction::AwaitChunk);
    assert_eq!(b.step(TreeEvent::Chunk), TreeAction::EncodeLeaf);
    assert_eq!(b.step(TreeEvent::LeafEncoded { cid: 2, encoded_len: 20 }), TreeAction::AwaitChunk);
    assert_eq!(
        b.step(TreeEvent::Chunk),
        TreeAction::EncodeStem(vec![Link { cid: 1, tsize: 10 }, Link { cid: 2, tsize: 20 }])
    );
    assert_eq!(b.step(TreeEvent::StemEncoded { cid: 3, encoded_len: 5 }), TreeAction::EncodeLeaf);
    assert_eq!(b.step(TreeEvent::LeafEncoded { cid: 4, encoded_len: 7 }), TreeAction::AwaitChunk);
    assert_eq!(b.emitted(), 42);
    assert_eq!(
        b.step(TreeEvent::End),
        TreeAction::EncodeStem(vec![Link { cid: 4, tsize: 7 }])
    );
    assert_eq!(
        b.step(TreeEvent::StemEncoded { cid: 5, encoded_len: 6 }),
        TreeAction::EncodeStem(vec![Link { cid: 3, tsize: 35 }, Link { cid: 5, tsize: 13 }])
    );
    assert_eq!(b.step(TreeEvent::StemEncoded { cid: 6, encoded_len: 9 }), TreeAction::Done);
    assert_eq!(b.emitted(), 57);
}

/// Counts, for each node handed out, how many stems link to it.
fn link_counts(nodes: &[Node]) -> Vec<usize> {
    // a stem's children are copies of earlier nodes, each distinct
    let mut counts = vec![0; nodes.len()];
    for (i, n) in nodes.iter().enumerate() {
        if let Node::Stem(children) = n {
            let mut from = 0;
            for c in children {
                // children are linked in the order they were handed out
                let j = (from..i).find(|&j| &nodes[j] == c && counts[j] == 0).unwrap();
                counts[j] += 1;
                from = j + 1;
            }
        }
    }
    counts
}

#[test]
fn every_node_but_the_root_is_linked_once() {
    for degree in 2..5 {
        for chunks in 2..30 {
            let (got, _) = run(chunks, degree);
            let counts = link_counts(&got);
            let (root, rest) = counts.split_last().unwrap();
            assert_eq!(*root, 0);
            assert!(rest.iter().all(|&c| c == 1), "degree {degree}, {chunks} chunks: {counts:?}");
        }
    }
}
