use gbhwdb::decoders::{decoder_of, registry};
use gbhwdb::part::{decode, Manufacturer, PartFamily};

fn sample(family: PartFamily, hint: u16, label: &str, year: Option<u16>, maker: Option<Manufacturer>) {
    let reg = registry();
    let d = decoder_of(&reg, family);
    assert_eq!(d.family, family);
    let p = decode(d, Some(hint), label).ok().unwrap();
    let info = p.info.unwrap_or_else(|| panic!("{label} did not match"));
    assert_eq!(info.year, year, "{label}");
    assert_eq!(info.manufacturer, maker, "{label}");
}

#[test]
fn every_family_decodes_a_sample() {
    sample(PartFamily::Gen1Soc, 1996, "SGB-CPU 01 © 1994 Nintendo © 1989 Nintendo JAPAN 9415 D", Some(1994), Some(Manufacturer::Sharp));
    sample(PartFamily::Gen2Soc, 1998, "CPU MGB © 1996 Nintendo JAPAN 9808 D", Some(1998), Some(Manufacturer::Sharp));
    sample(PartFamily::Gen2Soc, 1998, "CPU SGB2 © 1996 Nintendo © 1989 Nintendo JAPAN 9811 D", Some(1998), Some(Manufacturer::Sharp));
    sample(PartFamily::CgbSoc, 1998, "CPU CGB D © 1998 Nintendo JAPAN 0012 D", Some(2000), Some(Manufacturer::Sharp));
    sample(PartFamily::AgbSocQfp128, 2001, "CPU AGB A © 2000 Nintendo JAPAN ARM 0104 D", Some(2001), Some(Manufacturer::Sharp));
    sample(PartFamily::AgbSocQfp156, 2003, "CPU AGB E © 2003 Nintendo JAPAN ARM 0336 D", Some(2003), Some(Manufacturer::Sharp));
    sample(PartFamily::AgbSocBga, 2005, "CPU AGB E © 2004 Nintendo JAPAN ARM 0502 D", Some(2005), Some(Manufacturer::Sharp));
    sample(PartFamily::Ram, 1990, "D4168C-15 NEC JAPAN 9011", Some(1990), Some(Manufacturer::Nec));
    sample(PartFamily::Ram, 1999, "BS62LV256SC-70 9912", Some(1999), Some(Manufacturer::Bsi));
    sample(PartFamily::SramTsop48, 2001, "LH52A64N-YL 0123 A", Some(2001), Some(Manufacturer::Sharp));
    sample(PartFamily::SramTsop48, 2003, "HY62WT081ED70C 0330", Some(2003), Some(Manufacturer::Hynix));
    sample(PartFamily::SramTsop48, 2003, "MB82D01171A-90 0402", Some(2004), Some(Manufacturer::Fujitsu));
    sample(PartFamily::DmgAmp, 1996, "IR3R40 9220 A", Some(1992), Some(Manufacturer::Sharp));
    sample(PartFamily::MgbAmp, 1998, "AMP MGB IR3R53N 9735 A", Some(1997), Some(Manufacturer::Sharp));
    sample(PartFamily::MgbAmp, 1998, "AMP MGB IR3R56N 9935 B", Some(1999), Some(Manufacturer::Sharp));
    sample(PartFamily::AgbAmp, 2001, "AMP AGB IR3R60N 0110 A", Some(2001), Some(Manufacturer::Sharp));
    sample(PartFamily::AgbAmp, 2001, "AMP AGB IR3R62N 0210 A", Some(2002), Some(Manufacturer::Sharp));
    sample(PartFamily::DmgReg, 1996, "IR3E02 9130 C", Some(1991), Some(Manufacturer::Sharp));
    sample(PartFamily::CgbReg, 1998, "IR3E09N 0005 A", Some(2000), Some(Manufacturer::Sharp));
    sample(PartFamily::AgbReg, 2001, "AGB-REG IR3E09N 0130 A", Some(2001), Some(Manufacturer::Sharp));
    sample(PartFamily::AgbReg, 2001, "S6403 222", Some(2002), Some(Manufacturer::Mitsumi));
    sample(PartFamily::GbsReg, 2003, "MM1581A 340", Some(2003), Some(Manufacturer::Mitsumi));
    sample(PartFamily::AgbPmic, 2001, "MM1514X 115", Some(2001), Some(Manufacturer::Mitsumi));
    sample(PartFamily::AgbPmic, 2001, "BH6172GU 0202", Some(2002), Some(Manufacturer::Rohm));
    sample(PartFamily::AgsPmicOld, 2003, "BH6173GU 0310", Some(2003), Some(Manufacturer::Rohm));
    sample(PartFamily::AgsPmicNew, 2005, "BD6902KV 0512", Some(2005), Some(Manufacturer::Rohm));
    sample(PartFamily::AgsChargeCtrl, 2003, "2253B 420", Some(2004), Some(Manufacturer::Mitsumi));
    sample(PartFamily::AgsChargeCtrl, 2003, "BH6179KV 0340", Some(2003), Some(Manufacturer::Rohm));
    sample(PartFamily::OxyPmic, 2005, "BU9548GU 0520", Some(2005), Some(Manufacturer::Rohm));
    sample(PartFamily::OxyU4, 2005, "S6960E 511", Some(2005), Some(Manufacturer::Mitsumi));
    sample(PartFamily::OxyU5, 2005, "BH7805GU 0530", Some(2005), Some(Manufacturer::Rohm));
    sample(PartFamily::GbsDol, 2003, "GBS-DOL © 2003 Nintendo 0312", Some(2003), Some(Manufacturer::Nintendo));
    sample(PartFamily::Crystal4Mihz, 2001, "KINSEKI 4.19 1D", Some(2001), Some(Manufacturer::Kinseki));
    sample(PartFamily::Crystal8Mihz, 1998, "8.38 KDS 8A", Some(1998), Some(Manufacturer::Kds));
    sample(PartFamily::Crystal8Mihz, 1998, "KINSEKI 8.38 9B", Some(1999), Some(Manufacturer::Kinseki));
    sample(PartFamily::Crystal20Mihz, 1998, "20.9 KDS 8K", Some(1998), Some(Manufacturer::Kds));
    sample(PartFamily::Crystal32Mihz, 2003, "33.5 KDS 3C", Some(2003), Some(Manufacturer::Kds));
    sample(PartFamily::Icd2, 1996, "ICD2-R © 1994 Nintendo 9430", Some(1994), None);
    sample(PartFamily::Icd2, 1998, "ICD2-N © 1994 Nintendo 9810", Some(1998), None);
    sample(PartFamily::SgbRom, 1996, "SYS-SGB-2 © 1994 Nintendo 9421", Some(1994), None);
    sample(PartFamily::SgbRom, 1998, "SYS-SGB2-10 © 1998 Nintendo 9820", Some(1998), None);
    sample(PartFamily::Cic, 1996, "F411A © 1990 Nintendo 9203", Some(1992), None);
    sample(PartFamily::Cic, 1996, "F413A © 1992 Nintendo 9503", Some(1995), None);
    sample(PartFamily::Coil, 1998, "TDK 220", None, Some(Manufacturer::Tdk));
    sample(PartFamily::MglTransformer, 1998, "82Y7", None, None);
    sample(PartFamily::LcdChip, 1996, "LH5028 9012", Some(1990), Some(Manufacturer::Sharp));
    sample(PartFamily::LcdChip, 1996, "LH5075 9112", Some(1991), Some(Manufacturer::Sharp));
}
