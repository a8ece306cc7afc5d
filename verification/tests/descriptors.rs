use cch::errors::LaunchError;
use cch::fdset::DescriptorSet;
use cch::fdset::info_slot;
use cch::fdset::sandbox_descriptor_set;
use cch::fdset::userns_block_slot;

#[test]
fn in_order_sources_are_accepted() {
    let ds = DescriptorSet::new(vec![0, 1, 2, 5, 7]).unwrap();
    assert_eq!(ds.sources, vec![0, 1, 2, 5, 7]);
}

#[test]
fn clobbering_renumber_is_refused() {
    // moving 5 onto slot 0 first would clobber the source still waiting at 0
    assert!(matches!(DescriptorSet::new(vec![5, 0]), Err(LaunchError::ProcessSpawn)));
    assert!(matches!(DescriptorSet::new(vec![-1]), Err(LaunchError::ProcessSpawn)));
}

#[test]
fn empty_set_closes_everything() {
    let ds = DescriptorSet::new(Vec::new()).unwrap();
    assert!(ds.sources.is_empty());
}

#[test]
fn sandbox_layout_with_terminal() {
    let ds = sandbox_descriptor_set(true, 11, 14);
    assert_eq!(ds.sources, vec![0, 1, 2, 11, 14]);
    assert_eq!(userns_block_slot(true), 3);
    assert_eq!(info_slot(true), 4);
}

#[test]
fn sandbox_layout_without_terminal() {
    let ds = sandbox_descriptor_set(false, 11, 14);
    assert_eq!(ds.sources, vec![11, 14]);
    assert_eq!(userns_block_slot(false), 0);
    assert_eq!(info_slot(false), 1);
}
