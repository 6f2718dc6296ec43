use cxgledit::cmd::keyimpl::{KeyImpl, ModifiersImpl};
use cxgledit::cmd::{commands_matching, commands_matching_uppercase, get_command, CommandTag};

#[test]
fn test_matches() {
    let goto_matches = "gt";
    let goto_matches2 = "gtf";
    let file_matches = "ef";

    let fi = "fi";

    let gmatches = commands_matching(goto_matches).unwrap();
    let gmatches2 = commands_matching(goto_matches2).unwrap();
    let fmatches = commands_matching(file_matches).unwrap();
    let fi_matches = commands_matching(fi).unwrap();

    assert_eq!(gmatches.len(), 2, "Length did not match!");
    assert_eq!(gmatches2.len(), 1, "Length did not match!");
    assert_eq!(fmatches.len(), 2, "Length did not match!");
    assert_eq!(fi_matches.len(), 4, "Length did not match!");

    // gt matches against Go To and Go To in file
    assert!(gmatches.contains(&CommandTag::Goto), "Go to was not found in result");
    assert!(gmatches.contains(&CommandTag::GotoInFile), "Go to in File was not found in result!");

    // but gtf only matches against Go To in File
    assert!(gmatches2.contains(&CommandTag::GotoInFile), "Go to in File was not found in result!");

    // ef matches against opEn File and savE File
    assert!(fmatches.contains(&CommandTag::SaveFile), "Save File was not found in result!");
    assert!(fmatches.contains(&CommandTag::OpenFile), "Open File was not found in result!");

    // fi matches against open FIle, save FIle, go to in FIle and FInd
    assert!(fi_matches.contains(&CommandTag::Find), "Save File was not found in result!");
    assert!(fi_matches.contains(&CommandTag::OpenFile), "Open File was not found in result!");
    assert!(fi_matches.contains(&CommandTag::SaveFile), "Save File was not found in result!");
    assert!(fi_matches.contains(&CommandTag::GotoInFile), "Open File was not found in result!");
}

#[test]
fn matches_keep_table_order() {
    let fi = commands_matching("fi").unwrap();
    assert_eq!(fi, vec![CommandTag::GotoInFile, CommandTag::Find, CommandTag::OpenFile, CommandTag::SaveFile]);
}

#[test]
fn matches_none_and_whitespace() {
    assert_eq!(commands_matching("xyz"), None);
    // only whitespace: nothing is searched for, so nothing matches
    assert_eq!(commands_matching("  "), None);
    assert_eq!(commands_matching(""), None);
    // whitespace is skipped between the letters
    assert_eq!(commands_matching("g t"), Some(vec![CommandTag::Goto, CommandTag::GotoInFile]));
    // input longer than every name matches nothing
    assert_eq!(commands_matching("gotoinfileee"), None);
}

#[test]
fn matches_use_relative_positions() {
    // The position found for a letter counts from where its search began:
    // in "SAVEFILE", 'E' is found at 3 and 'F' after that at 1, so the search
    // for 'I' starts at 1 and finds it at 4.
    assert_eq!(commands_matching("efi"), Some(vec![CommandTag::OpenFile, CommandTag::SaveFile]));
    assert_eq!(commands_matching_uppercase(2, "GT"), Some(vec![CommandTag::Goto, CommandTag::GotoInFile]));
}

#[test]
fn get_command_ignores_case_and_whitespace() {
    assert_eq!(get_command("goto"), Some(CommandTag::Goto));
    assert_eq!(get_command("Open File"), Some(CommandTag::OpenFile));
    assert_eq!(get_command("save file"), Some(CommandTag::SaveFile));
    assert_eq!(get_command("go to in file"), Some(CommandTag::GotoInFile));
    assert_eq!(get_command("find"), Some(CommandTag::Find));
    assert_eq!(get_command("fin"), None);
}

#[test]
fn command_texts() {
    assert_eq!(CommandTag::name(CommandTag::GotoInFile), "Go to in file");
    assert_eq!(CommandTag::description(CommandTag::Find), "Input what to search for:");
    assert_eq!(CommandTag::description(CommandTag::SaveFile), "Save file:");
}

#[test]
fn key_names_and_codes() {
    assert_eq!(KeyImpl::from_str("Space"), Ok(KeyImpl::Space));
    assert_eq!(KeyImpl::from_str("KpAdd"), Ok(KeyImpl::KpAdd));
    // every key is read from its own name, and only from that
    assert_eq!(KeyImpl::from_str("Apostrophe"), Ok(KeyImpl::Apostrophe));
    assert_eq!(KeyImpl::from_str("Comma"), Ok(KeyImpl::Comma));
    assert_eq!(KeyImpl::from_str("Slash"), Ok(KeyImpl::Slash));
    assert_eq!(KeyImpl::from_str("Comm"), Err("could not do fromstr for keyimpl"));
    assert_eq!(KeyImpl::from_str(KeyImpl::Period.name()), Ok(KeyImpl::Period));
    assert_eq!(KeyImpl::from_str(KeyImpl::Minus.name()), Ok(KeyImpl::Minus));
    assert_eq!(KeyImpl::from_str("space"), Err("could not do fromstr for keyimpl"));
    assert_eq!(KeyImpl::Apostrophe.name(), "Apostrophe");
    assert_eq!(KeyImpl::A.code(), 65);
    assert_eq!(KeyImpl::Escape.code(), 256);
    assert_eq!(KeyImpl::Unknown.code(), -1);
    assert_eq!(KeyImpl::from_code(290), Some(KeyImpl::F1));
    assert_eq!(KeyImpl::from_code(1000), None);
}

#[test]
fn modifier_names() {
    let ctrl_shift = ModifiersImpl::control().union(ModifiersImpl::shift());
    assert_eq!(ctrl_shift.bits(), 3);
    assert_eq!(ctrl_shift.to_str(), "ctrl+shift");
    assert_eq!(ModifiersImpl::from_str("ctrl+shift"), Ok(ctrl_shift));
    assert_eq!(ModifiersImpl::from_str("shift+ctrl"), Err("could not modifiers impl"));
    assert_eq!(ModifiersImpl::caps_lock().to_str(), "");
    assert!(ModifiersImpl::empty().is_empty());
    assert_eq!(ModifiersImpl::from_bits_truncate(0x7f).bits(), 0x3f);
    let all = ModifiersImpl::control().union(ModifiersImpl::alt()).union(ModifiersImpl::shift()).union(ModifiersImpl::super_key());
    assert_eq!(all.to_str(), "ctrl+alt+shift+meta");
}
