use vstd::prelude::*;

use crate::catalog::Classifier;
use crate::lexord::lex_lt;
use crate::lexord::lex_lt_from;
use crate::rank::classifier_of_rank;

verus! {

proof fn lex_adj_560()
    ensures
        lex_lt(Classifier::Topic__Communications__Email__MailingListServers.tag(), Classifier::Topic__Communications__Email__PostOffice.tag()),
{
    reveal_strlit("Topic :: Communications :: Email :: Mailing List Servers");
    reveal_strlit("Topic :: Communications :: Email :: Post-Office");
    reveal_with_fuel(lex_lt_from, 38);
}

proof fn lex_adj_561()
    ensures
        lex_lt(Classifier::Topic__Communications__Email__PostOffice.tag(), Classifier::Topic__Communications__Email__PostOffice__IMAP.tag()),
{
    reveal_strlit("Topic :: Communications :: Email :: Post-Office");
    reveal_strlit("Topic :: Communications :: Email :: Post-Office :: IMAP");
    reveal_with_fuel(lex_lt_from, 49);
}

proof fn lex_adj_562()
    ensures
        lex_lt(Classifier::Topic__Communications__Email__PostOffice__IMAP.tag(), Classifier::Topic__Communications__Email__PostOffice__POP3.tag()),
{
    reveal_strlit("Topic :: Communications :: Email :: Post-Office :: IMAP");
    reveal_strlit("Topic :: Communications :: Email :: Post-Office :: POP3");
    reveal_with_fuel(lex_lt_from, 53);
}

proof fn lex_adj_563()
    ensures
        lex_lt(Classifier::Topic__Communications__Email__PostOffice__POP3.tag(), Classifier::Topic__Communications__FIDO.tag()),
{
    reveal_strlit("Topic :: Communications :: Email :: Post-Office :: POP3");
    reveal_strlit("Topic :: Communications :: FIDO");
    reveal_with_fuel(lex_lt_from, 29);
}

proof fn lex_adj_564()
    ensures
        lex_lt(Classifier::Topic__Communications__FIDO.tag(), Classifier::Topic__Communications__Fax.tag()),
{
    reveal_strlit("Topic :: Communications :: FIDO");
    reveal_strlit("Topic :: Communications :: Fax");
    reveal_with_fuel(lex_lt_from, 30);
}

proof fn lex_adj_565()
    ensures
        lex_lt(Classifier::Topic__Communications__Fax.tag(), Classifier::Topic__Communications__FileSharing.tag()),
{
    reveal_strlit("Topic :: Communications :: Fax");
    reveal_strlit("Topic :: Communications :: File Sharing");
    reveal_with_fuel(lex_lt_from, 30);
}

proof fn lex_adj_566()
    ensures
        lex_lt(Classifier::Topic__Communications__FileSharing.tag(), Classifier::Topic__Communications__FileSharing__Gnutella.tag()),
{
    reveal_strlit("Topic :: Communications :: File Sharing");
    reveal_strlit("Topic :: Communications :: File Sharing :: Gnutella");
    reveal_with_fuel(lex_lt_from, 41);
}

proof fn lex_adj_567()
    ensures
        lex_lt(Classifier::Topic__Communications__FileSharing__Gnutella.tag(), Classifier::Topic__Communications__FileSharing__Napster.tag()),
{
    reveal_strlit("Topic :: Communications :: File Sharing :: Gnutella");
    reveal_strlit("Topic :: Communications :: File Sharing :: Napster");
    reveal_with_fuel(lex_lt_from, 45);
}

proof fn lex_adj_568()
    ensures
        lex_lt(Classifier::Topic__Communications__FileSharing__Napster.tag(), Classifier::Topic__Communications__HamRadio.tag()),
{
    reveal_strlit("Topic :: Communications :: File Sharing :: Napster");
    reveal_strlit("Topic :: Communications :: Ham Radio");
    reveal_with_fuel(lex_lt_from, 29);
}

proof fn lex_adj_569()
    ensures
        lex_lt(Classifier::Topic__Communications__HamRadio.tag(), Classifier::Topic__Communications__InternetPhone.tag()),
{
    reveal_strlit("Topic :: Communications :: Ham Radio");
    reveal_strlit("Topic :: Communications :: Internet Phone");
    reveal_with_fuel(lex_lt_from, 29);
}

proof fn lex_adj_570()
    ensures
        lex_lt(Classifier::Topic__Communications__InternetPhone.tag(), Classifier::Topic__Communications__Telephony.tag()),
{
    reveal_strlit("Topic :: Communications :: Internet Phone");
    reveal_strlit("Topic :: Communications :: Telephony");
    reveal_with_fuel(lex_lt_from, 29);
}

proof fn lex_adj_571()
    ensures
        lex_lt(Classifier::Topic__Communications__Telephony.tag(), Classifier::Topic__Communications__UsenetNews.tag()),
{
    reveal_strlit("Topic :: Communications :: Telephony");
    reveal_strlit("Topic :: Communications :: Usenet News");
    reveal_with_fuel(lex_lt_from, 29);
}

proof fn lex_adj_572()
    ensures
        lex_lt(Classifier::Topic__Communications__UsenetNews.tag(), Classifier::Topic__Database.tag()),
{
    reveal_strlit("Topic :: Communications :: Usenet News");
    reveal_strlit("Topic :: Database");
    reveal_with_fuel(lex_lt_from, 11);
}

proof fn lex_adj_573()
    ensures
        lex_lt(Classifier::Topic__Database.tag(), Classifier::Topic__Database__DatabaseEnginesServers.tag()),
{
    reveal_strlit("Topic :: Database");
    reveal_strlit("Topic :: Database :: Database Engines/Servers");
    reveal_with_fuel(lex_lt_from, 19);
}

proof fn lex_adj_574()
    ensures
        lex_lt(Classifier::Topic__Database__DatabaseEnginesServers.tag(), Classifier::Topic__Database__FrontEnds.tag()),
{
    reveal_strlit("Topic :: Database :: Database Engines/Servers");
    reveal_strlit("Topic :: Database :: Front-Ends");
    reveal_with_fuel(lex_lt_from, 23);
}

proof fn lex_adj_575()
    ensures
        lex_lt(Classifier::Topic__Database__FrontEnds.tag(), Classifier::Topic__DesktopEnvironment.tag()),
{
    reveal_strlit("Topic :: Database :: Front-Ends");
    reveal_strlit("Topic :: Desktop Environment");
    reveal_with_fuel(lex_lt_from, 12);
}

proof fn lex_adj_576()
    ensures
        lex_lt(Classifier::Topic__DesktopEnvironment.tag(), Classifier::Topic__DesktopEnvironment__FileManagers.tag()),
{
    reveal_strlit("Topic :: Desktop Environment");
    reveal_strlit("Topic :: Desktop Environment :: File Managers");
    reveal_with_fuel(lex_lt_from, 30);
}

proof fn lex_adj_577()
    ensures
        lex_lt(Classifier::Topic__DesktopEnvironment__FileManagers.tag(), Classifier::Topic__DesktopEnvironment__GNUstep.tag()),
{
    reveal_strlit("Topic :: Desktop Environment :: File Managers");
    reveal_strlit("Topic :: Desktop Environment :: GNUstep");
    reveal_with_fuel(lex_lt_from, 34);
}

proof fn lex_adj_578()
    ensures
        lex_lt(Classifier::Topic__DesktopEnvironment__GNUstep.tag(), Classifier::Topic__DesktopEnvironment__Gnome.tag()),
{
    reveal_strlit("Topic :: Desktop Environment :: GNUstep");
    reveal_strlit("Topic :: Desktop Environment :: Gnome");
    reveal_with_fuel(lex_lt_from, 35);
}

proof fn lex_adj_579()
    ensures
        lex_lt(Classifier::Topic__DesktopEnvironment__Gnome.tag(), Classifier::Topic__DesktopEnvironment__KDesktopEnvironmentKDE.tag()),
{
    reveal_strlit("Topic :: Desktop Environment :: Gnome");
    reveal_strlit("Topic :: Desktop Environment :: K Desktop Environment (KDE)");
    reveal_with_fuel(lex_lt_from, 34);
}

proof fn lex_adj_580()
    ensures
        lex_lt(Classifier::Topic__DesktopEnvironment__KDesktopEnvironmentKDE.tag(), Classifier::Topic__DesktopEnvironment__KDesktopEnvironmentKDE__Themes.tag()),
{
    reveal_strlit("Topic :: Desktop Environment :: K Desktop Environment (KDE)");
    reveal_strlit("Topic :: Desktop Environment :: K Desktop Environment (KDE) :: Themes");
    reveal_with_fuel(lex_lt_from, 61);
}

proof fn lex_adj_581()
    ensures
        lex_lt(Classifier::Topic__DesktopEnvironment__KDesktopEnvironmentKDE__Themes.tag(), Classifier::Topic__DesktopEnvironment__PicoGUI.tag()),
{
    reveal_strlit("Topic :: Desktop Environment :: K Desktop Environment (KDE) :: Themes");
    reveal_strlit("Topic :: Desktop Environment :: PicoGUI");
    reveal_with_fuel(lex_lt_from, 34);
}

proof fn lex_adj_582()
    ensures
        lex_lt(Classifier::Topic__DesktopEnvironment__PicoGUI.tag(), Classifier::Topic__DesktopEnvironment__PicoGUI__Applications.tag()),
{
    reveal_strlit("Topic :: Desktop Environment :: PicoGUI");
    reveal_strlit("Topic :: Desktop Environment :: PicoGUI :: Applications");
    reveal_with_fuel(lex_lt_from, 41);
}

proof fn lex_adj_583()
    ensures
        lex_lt(Classifier::Topic__DesktopEnvironment__PicoGUI__Applications.tag(), Classifier::Topic__DesktopEnvironment__PicoGUI__Themes.tag()),
{
    reveal_strlit("Topic :: Desktop Environment :: PicoGUI :: Applications");
    reveal_strlit("Topic :: Desktop Environment :: PicoGUI :: Themes");
    reveal_with_fuel(lex_lt_from, 45);
}

proof fn lex_adj_584()
    ensures
        lex_lt(Classifier::Topic__DesktopEnvironment__PicoGUI__Themes.tag(), Classifier::Topic__DesktopEnvironment__ScreenSavers.tag()),
{
    reveal_strlit("Topic :: Desktop Environment :: PicoGUI :: Themes");
    reveal_strlit("Topic :: Desktop Environment :: Screen Savers");
    reveal_with_fuel(lex_lt_from, 34);
}

proof fn lex_adj_585()
    ensures
        lex_lt(Classifier::Topic__DesktopEnvironment__ScreenSavers.tag(), Classifier::Topic__DesktopEnvironment__WindowManagers.tag()),
{
    reveal_strlit("Topic :: Desktop Environment :: Screen Savers");
    reveal_strlit("Topic :: Desktop Environment :: Window Managers");
    reveal_with_fuel(lex_lt_from, 34);
}

proof fn lex_adj_586()
    ensures
        lex_lt(Classifier::Topic__DesktopEnvironment__WindowManagers.tag(), Classifier::Topic__DesktopEnvironment__WindowManagers__Afterstep.tag()),
{
    reveal_strlit("Topic :: Desktop Environment :: Window Managers");
    reveal_strlit("Topic :: Desktop Environment :: Window Managers :: Afterstep");
    reveal_with_fuel(lex_lt_from, 49);
}

proof fn lex_adj_587()
    ensures
        lex_lt(Classifier::Topic__DesktopEnvironment__WindowManagers__Afterstep.tag(), Classifier::Topic__DesktopEnvironment__WindowManagers__Afterstep__Themes.tag()),
{
    reveal_strlit("Topic :: Desktop Environment :: Window Managers :: Afterstep");
    reveal_strlit("Topic :: Desktop Environment :: Window Managers :: Afterstep :: Themes");
    reveal_with_fuel(lex_lt_from, 62);
}

proof fn lex_adj_588()
    ensures
        lex_lt(Classifier::Topic__DesktopEnvironment__WindowManagers__Afterstep__Themes.tag(), Classifier::Topic__DesktopEnvironment__WindowManagers__Applets.tag()),
{
    reveal_strlit("Topic :: Desktop Environment :: Window Managers :: Afterstep :: Themes");
    reveal_strlit("Topic :: Desktop Environment :: Window Managers :: Applets");
    reveal_with_fuel(lex_lt_from, 54);
}

proof fn lex_adj_589()
    ensures
        lex_lt(Classifier::Topic__DesktopEnvironment__WindowManagers__Applets.tag(), Classifier::Topic__DesktopEnvironment__WindowManagers__Blackbox.tag()),
{
    reveal_strlit("Topic :: Desktop Environment :: Window Managers :: Applets");
    reveal_strlit("Topic :: Desktop Environment :: Window Managers :: Blackbox");
    reveal_with_fuel(lex_lt_from, 53);
}

proof fn lex_adj_590()
    ensures
        lex_lt(Classifier::Topic__DesktopEnvironment__WindowManagers__Blackbox.tag(), Classifier::Topic__DesktopEnvironment__WindowManagers__Blackbox__Themes.tag()),
{
    reveal_strlit("Topic :: Desktop Environment :: Window Managers :: Blackbox");
    reveal_strlit("Topic :: Desktop Environment :: Window Managers :: Blackbox :: Themes");
    reveal_with_fuel(lex_lt_from, 61);
}

proof fn lex_adj_591()
    ensures
        lex_lt(Classifier::Topic__DesktopEnvironment__WindowManagers__Blackbox__Themes.tag(), Classifier::Topic__DesktopEnvironment__WindowManagers__CTWM.tag()),
{
    reveal_strlit("Topic :: Desktop Environment :: Window Managers :: Blackbox :: Themes");
    reveal_strlit("Topic :: Desktop Environment :: Window Managers :: CTWM");
    reveal_with_fuel(lex_lt_from, 53);
}

proof fn lex_adj_592()
    ensures
        lex_lt(Classifier::Topic__DesktopEnvironment__WindowManagers__CTWM.tag(), Classifier::Topic__DesktopEnvironment__WindowManagers__CTWM__Themes.tag()),
{
    reveal_strlit("Topic :: Desktop Environment :: Window Managers :: CTWM");
    reveal_strlit("Topic :: Desktop Environment :: Window Managers :: CTWM :: Themes");
    reveal_with_fuel(lex_lt_from, 57);
}

proof fn lex_adj_593()
    ensures
        lex_lt(Classifier::Topic__DesktopEnvironment__WindowManagers__CTWM__Themes.tag(), Classifier::Topic__DesktopEnvironment__WindowManagers__Enlightenment.tag()),
{
    reveal_strlit("Topic :: Desktop Environment :: Window Managers :: CTWM :: Themes");
    reveal_strlit("Topic :: Desktop Environment :: Window Managers :: Enlightenment");
    reveal_with_fuel(lex_lt_from, 53);
}

proof fn lex_adj_594()
    ensures
        lex_lt(Classifier::Topic__DesktopEnvironment__WindowManagers__Enlightenment.tag(), Classifier::Topic__DesktopEnvironment__WindowManagers__Enlightenment__Epplets.tag()),
{
    reveal_strlit("Topic :: Desktop Environment :: Window Managers :: Enlightenment");
    reveal_strlit("Topic :: Desktop Environment :: Window Managers :: Enlightenment :: Epplets");
    reveal_with_fuel(lex_lt_from, 66);
}

proof fn lex_adj_595()
    ensures
        lex_lt(Classifier::Topic__DesktopEnvironment__WindowManagers__Enlightenment__Epplets.tag(), Classifier::Topic__DesktopEnvironment__WindowManagers__Enlightenment__ThemesDR15.tag()),
{
    reveal_strlit("Topic :: Desktop Environment :: Window Managers :: Enlightenment :: Epplets");
    reveal_strlit("Topic :: Desktop Environment :: Window Managers :: Enlightenment :: Themes DR15");
    reveal_with_fuel(lex_lt_from, 70);
}

proof fn lex_adj_596()
    ensures
        lex_lt(Classifier::Topic__DesktopEnvironment__WindowManagers__Enlightenment__ThemesDR15.tag(), Classifier::Topic__DesktopEnvironment__WindowManagers__Enlightenment__ThemesDR16.tag()),
{
    reveal_strlit("Topic :: Desktop Environment :: Window Managers :: Enlightenment :: Themes DR15");
    reveal_strlit("Topic :: Desktop Environment :: Window Managers :: Enlightenment :: Themes DR16");
    reveal_with_fuel(lex_lt_from, 80);
}

proof fn lex_adj_597()
    ensures
        lex_lt(Classifier::Topic__DesktopEnvironment__WindowManagers__Enlightenment__ThemesDR16.tag(), Classifier::Topic__DesktopEnvironment__WindowManagers__Enlightenment__ThemesDR17.tag()),
{
    reveal_strlit("Topic :: Desktop Environment :: Window Managers :: Enlightenment :: Themes DR16");
    reveal_strlit("Topic :: Desktop Environment :: Window Managers :: Enlightenment :: Themes DR17");
    reveal_with_fuel(lex_lt_from, 80);
}

proof fn lex_adj_598()
    ensures
        lex_lt(Classifier::Topic__DesktopEnvironment__WindowManagers__Enlightenment__ThemesDR17.tag(), Classifier::Topic__DesktopEnvironment__WindowManagers__FVWM.tag()),
{
    reveal_strlit("Topic :: Desktop Environment :: Window Managers :: Enlightenment :: Themes DR17");
    reveal_strlit("Topic :: Desktop Environment :: Window Managers :: FVWM");
    reveal_with_fuel(lex_lt_from, 53);
}

proof fn lex_adj_599()
    ensures
        lex_lt(Classifier::Topic__DesktopEnvironment__WindowManagers__FVWM.tag(), Classifier::Topic__DesktopEnvironment__WindowManagers__FVWM__Themes.tag()),
{
    reveal_strlit("Topic :: Desktop Environment :: Window Managers :: FVWM");
    reveal_strlit("Topic :: Desktop Environment :: Window Managers :: FVWM :: Themes");
    reveal_with_fuel(lex_lt_from, 57);
}

proof fn lex_adj_600()
    ensures
        lex_lt(Classifier::Topic__DesktopEnvironment__WindowManagers__FVWM__Themes.tag(), Classifier::Topic__DesktopEnvironment__WindowManagers__Fluxbox.tag()),
{
    reveal_strlit("Topic :: Desktop Environment :: Window Managers :: FVWM :: Themes");
    reveal_strlit("Topic :: Desktop Environment :: Window Managers :: Fluxbox");
    reveal_with_fuel(lex_lt_from, 54);
}

proof fn lex_adj_601()
    ensures
        lex_lt(Classifier::Topic__DesktopEnvironment__WindowManagers__Fluxbox.tag(), Classifier::Topic__DesktopEnvironment__WindowManagers__Fluxbox__Themes.tag()),
{
    reveal_strlit("Topic :: Desktop Environment :: Window Managers :: Fluxbox");
    reveal_strlit("Topic :: Desktop Environment :: Window Managers :: Fluxbox :: Themes");
    reveal_with_fuel(lex_lt_from, 60);
}

proof fn lex_adj_602()
    ensures
        lex_lt(Classifier::Topic__DesktopEnvironment__WindowManagers__Fluxbox__Themes.tag(), Classifier::Topic__DesktopEnvironment__WindowManagers__IceWM.tag()),
{
    reveal_strlit("Topic :: Desktop Environment :: Window Managers :: Fluxbox :: Themes");
    reveal_strlit("Topic :: Desktop Environment :: Window Managers :: IceWM");
    reveal_with_fuel(lex_lt_from, 53);
}

proof fn lex_adj_603()
    ensures
        lex_lt(Classifier::Topic__DesktopEnvironment__WindowManagers__IceWM.tag(), Classifier::Topic__DesktopEnvironment__WindowManagers__IceWM__Themes.tag()),
{
    reveal_strlit("Topic :: Desktop Environment :: Window Managers :: IceWM");
    reveal_strlit("Topic :: Desktop Environment :: Window Managers :: IceWM :: Themes");
    reveal_with_fuel(lex_lt_from, 58);
}

proof fn lex_adj_604()
    ensures
        lex_lt(Classifier::Topic__DesktopEnvironment__WindowManagers__IceWM__Themes.tag(), Classifier::Topic__DesktopEnvironment__WindowManagers__MetaCity.tag()),
{
    reveal_strlit("Topic :: Desktop Environment :: Window Managers :: IceWM :: Themes");
    reveal_strlit("Topic :: Desktop Environment :: Window Managers :: MetaCity");
    reveal_with_fuel(lex_lt_from, 53);
}

proof fn lex_adj_605()
    ensures
        lex_lt(Classifier::Topic__DesktopEnvironment__WindowManagers__MetaCity.tag(), Classifier::Topic__DesktopEnvironment__WindowManagers__MetaCity__Themes.tag()),
{
    reveal_strlit("Topic :: Desktop Environment :: Window Managers :: MetaCity");
    reveal_strlit("Topic :: Desktop Environment :: Window Managers :: MetaCity :: Themes");
    reveal_with_fuel(lex_lt_from, 61);
}

proof fn lex_adj_606()
    ensures
        lex_lt(Classifier::Topic__DesktopEnvironment__WindowManagers__MetaCity__Themes.tag(), Classifier::Topic__DesktopEnvironment__WindowManagers__Oroborus.tag()),
{
    reveal_strlit("Topic :: Desktop Environment :: Window Managers :: MetaCity :: Themes");
    reveal_strlit("Topic :: Desktop Environment :: Window Managers :: Oroborus");
    reveal_with_fuel(lex_lt_from, 53);
}

proof fn lex_adj_607()
    ensures
        lex_lt(Classifier::Topic__DesktopEnvironment__WindowManagers__Oroborus.tag(), Classifier::Topic__DesktopEnvironment__WindowManagers__Oroborus__Themes.tag()),
{
    reveal_strlit("Topic :: Desktop Environment :: Window Managers :: Oroborus");
    reveal_strlit("Topic :: Desktop Environment :: Window Managers :: Oroborus :: Themes");
    reveal_with_fuel(lex_lt_from, 61);
}

proof fn lex_adj_608()
    ensures
        lex_lt(Classifier::Topic__DesktopEnvironment__WindowManagers__Oroborus__Themes.tag(), Classifier::Topic__DesktopEnvironment__WindowManagers__Sawfish.tag()),
{
    reveal_strlit("Topic :: Desktop Environment :: Window Managers :: Oroborus :: Themes");
    reveal_strlit("Topic :: Desktop Environment :: Window Managers :: Sawfish");
    reveal_with_fuel(lex_lt_from, 53);
}

proof fn lex_adj_609()
    ensures
        lex_lt(Classifier::Topic__DesktopEnvironment__WindowManagers__Sawfish.tag(), Classifier::Topic__DesktopEnvironment__WindowManagers__Sawfish__Themes0_30.tag()),
{
    reveal_strlit("Topic :: Desktop Environment :: Window Managers :: Sawfish");
    reveal_strlit("Topic :: Desktop Environment :: Window Managers :: Sawfish :: Themes 0.30");
    reveal_with_fuel(lex_lt_from, 60);
}

proof fn lex_adj_610()
    ensures
        lex_lt(Classifier::Topic__DesktopEnvironment__WindowManagers__Sawfish__Themes0_30.tag(), Classifier::Topic__DesktopEnvironment__WindowManagers__Sawfish__Themespre0_30.tag()),
{
    reveal_strlit("Topic :: Desktop Environment :: Window Managers :: Sawfish :: Themes 0.30");
    reveal_strlit("Topic :: Desktop Environment :: Window Managers :: Sawfish :: Themes pre-0.30");
    reveal_with_fuel(lex_lt_from, 71);
}

proof fn lex_adj_611()
    ensures
        lex_lt(Classifier::Topic__DesktopEnvironment__WindowManagers__Sawfish__Themespre0_30.tag(), Classifier::Topic__DesktopEnvironment__WindowManagers__Waimea.tag()),
{
    reveal_strlit("Topic :: Desktop Environment :: Window Managers :: Sawfish :: Themes pre-0.30");
    reveal_strlit("Topic :: Desktop Environment :: Window Managers :: Waimea");
    reveal_with_fuel(lex_lt_from, 53);
}

proof fn lex_adj_612()
    ensures
        lex_lt(Classifier::Topic__DesktopEnvironment__WindowManagers__Waimea.tag(), Classifier::Topic__DesktopEnvironment__WindowManagers__Waimea__Themes.tag()),
{
    reveal_strlit("Topic :: Desktop Environment :: Window Managers :: Waimea");
    reveal_strlit("Topic :: Desktop Environment :: Window Managers :: Waimea :: Themes");
    reveal_with_fuel(lex_lt_from, 59);
}

proof fn lex_adj_613()
    ensures
        lex_lt(Classifier::Topic__DesktopEnvironment__WindowManagers__Waimea__Themes.tag(), Classifier::Topic__DesktopEnvironment__WindowManagers__WindowMaker.tag()),
{
    reveal_strlit("Topic :: Desktop Environment :: Window Managers :: Waimea :: Themes");
    reveal_strlit("Topic :: Desktop Environment :: Window Managers :: Window Maker");
    reveal_with_fuel(lex_lt_from, 54);
}

proof fn lex_adj_614()
    ensures
        lex_lt(Classifier::Topic__DesktopEnvironment__WindowManagers__WindowMaker.tag(), Classifier::Topic__DesktopEnvironment__WindowManagers__WindowMaker__Applets.tag()),
{
    reveal_strlit("Topic :: Desktop Environment :: Window Managers :: Window Maker");
    reveal_strlit("Topic :: Desktop Environment :: Window Managers :: Window Maker :: Applets");
    reveal_with_fuel(lex_lt_from, 65);
}

proof fn lex_adj_615()
    ensures
        lex_lt(Classifier::Topic__DesktopEnvironment__WindowManagers__WindowMaker__Applets.tag(), Classifier::Topic__DesktopEnvironment__WindowManagers__WindowMaker__Themes.tag()),
{
    reveal_strlit("Topic :: Desktop Environment :: Window Managers :: Window Maker :: Applets");
    reveal_strlit("Topic :: Desktop Environment :: Window Managers :: Window Maker :: Themes");
    reveal_with_fuel(lex_lt_from, 69);
}

proof fn lex_adj_616()
    ensures
        lex_lt(Classifier::Topic__DesktopEnvironment__WindowManagers__WindowMaker__Themes.tag(), Classifier::Topic__DesktopEnvironment__WindowManagers__XFCE.tag()),
{
    reveal_strlit("Topic :: Desktop Environment :: Window Managers :: Window Maker :: Themes");
    reveal_strlit("Topic :: Desktop Environment :: Window Managers :: XFCE");
    reveal_with_fuel(lex_lt_from, 53);
}

proof fn lex_adj_617()
    ensures
        lex_lt(Classifier::Topic__DesktopEnvironment__WindowManagers__XFCE.tag(), Classifier::Topic__DesktopEnvironment__WindowManagers__XFCE__Themes.tag()),
{
    reveal_strlit("Topic :: Desktop Environment :: Window Managers :: XFCE");
    reveal_strlit("Topic :: Desktop Environment :: Window Managers :: XFCE :: Themes");
    reveal_with_fuel(lex_lt_from, 57);
}

proof fn lex_adj_618()
    ensures
        lex_lt(Classifier::Topic__DesktopEnvironment__WindowManagers__XFCE__Themes.tag(), Classifier::Topic__Documentation.tag()),
{
    reveal_strlit("Topic :: Desktop Environment :: Window Managers :: XFCE :: Themes");
    reveal_strlit("Topic :: Documentation");
    reveal_with_fuel(lex_lt_from, 12);
}

proof fn lex_adj_619()
    ensures
        lex_lt(Classifier::Topic__Documentation.tag(), Classifier::Topic__Documentation__Sphinx.tag()),
{
    reveal_strlit("Topic :: Documentation");
    reveal_strlit("Topic :: Documentation :: Sphinx");
    reveal_with_fuel(lex_lt_from, 24);
}

proof fn lex_adj_620()
    ensures
        lex_lt(Classifier::Topic__Documentation__Sphinx.tag(), Classifier::Topic__Education.tag()),
{
    reveal_strlit("Topic :: Documentation :: Sphinx");
    reveal_strlit("Topic :: Education");
    reveal_with_fuel(lex_lt_from, 11);
}

proof fn lex_adj_621()
    ensures
        lex_lt(Classifier::Topic__Education.tag(), Classifier::Topic__Education__ComputerAidedInstructionCAI.tag()),
{
    reveal_strlit("Topic :: Education");
    reveal_strlit("Topic :: Education :: Computer Aided Instruction (CAI)");
    reveal_with_fuel(lex_lt_from, 20);
}

proof fn lex_adj_622()
    ensures
        lex_lt(Classifier::Topic__Education__ComputerAidedInstructionCAI.tag(), Classifier::Topic__Education__Testing.tag()),
{
    reveal_strlit("Topic :: Education :: Computer Aided Instruction (CAI)");
    reveal_strlit("Topic :: Education :: Testing");
    reveal_with_fuel(lex_lt_from, 24);
}

proof fn lex_adj_623()
    ensures
        lex_lt(Classifier::Topic__Education__Testing.tag(), Classifier::Topic__FileFormats.tag()),
{
    reveal_strlit("Topic :: Education :: Testing");
    reveal_strlit("Topic :: File Formats");
    reveal_with_fuel(lex_lt_from, 11);
}

proof fn lex_adj_624()
    ensures
        lex_lt(Classifier::Topic__FileFormats.tag(), Classifier::Topic__FileFormats__JSON.tag()),
{
    reveal_strlit("Topic :: File Formats");
    reveal_strlit("Topic :: File Formats :: JSON");
    reveal_with_fuel(lex_lt_from, 23);
}

proof fn lex_adj_625()
    ensures
        lex_lt(Classifier::Topic__FileFormats__JSON.tag(), Classifier::Topic__FileFormats__JSON__JSONSchema.tag()),
{
    reveal_strlit("Topic :: File Formats :: JSON");
    reveal_strlit("Topic :: File Formats :: JSON :: JSON Schema");
    reveal_with_fuel(lex_lt_from, 31);
}

proof fn lex_adj_626()
    ensures
        lex_lt(Classifier::Topic__FileFormats__JSON__JSONSchema.tag(), Classifier::Topic__GamesEntertainment.tag()),
{
    reveal_strlit("Topic :: File Formats :: JSON :: JSON Schema");
    reveal_strlit("Topic :: Games/Entertainment");
    reveal_with_fuel(lex_lt_from, 11);
}

proof fn lex_adj_627()
    ensures
        lex_lt(Classifier::Topic__GamesEntertainment.tag(), Classifier::Topic__GamesEntertainment__Arcade.tag()),
{
    reveal_strlit("Topic :: Games/Entertainment");
    reveal_strlit("Topic :: Games/Entertainment :: Arcade");
    reveal_with_fuel(lex_lt_from, 30);
}

proof fn lex_adj_628()
    ensures
        lex_lt(Classifier::Topic__GamesEntertainment__Arcade.tag(), Classifier::Topic__GamesEntertainment__BoardGames.tag()),
{
    reveal_strlit("Topic :: Games/Entertainment :: Arcade");
    reveal_strlit("Topic :: Games/Entertainment :: Board Games");
    reveal_with_fuel(lex_lt_from, 34);
}

proof fn lex_adj_629()
    ensures
        lex_lt(Classifier::Topic__GamesEntertainment__BoardGames.tag(), Classifier::Topic__GamesEntertainment__FirstPersonShooters.tag()),
{
    reveal_strlit("Topic :: Games/Entertainment :: Board Games");
    reveal_strlit("Topic :: Games/Entertainment :: First Person Shooters");
    reveal_with_fuel(lex_lt_from, 34);
}

proof fn lex_adj_630()
    ensures
        lex_lt(Classifier::Topic__GamesEntertainment__FirstPersonShooters.tag(), Classifier::Topic__GamesEntertainment__FortuneCookies.tag()),
{
    reveal_strlit("Topic :: Games/Entertainment :: First Person Shooters");
    reveal_strlit("Topic :: Games/Entertainment :: Fortune Cookies");
    reveal_with_fuel(lex_lt_from, 35);
}

proof fn lex_adj_631()
    ensures
        lex_lt(Classifier::Topic__GamesEntertainment__FortuneCookies.tag(), Classifier::Topic__GamesEntertainment__MultiUserDungeonsMUD.tag()),
{
    reveal_strlit("Topic :: Games/Entertainment :: Fortune Cookies");
    reveal_strlit("Topic :: Games/Entertainment :: Multi-User Dungeons (MUD)");
    reveal_with_fuel(lex_lt_from, 34);
}

proof fn lex_adj_632()
    ensures
        lex_lt(Classifier::Topic__GamesEntertainment__MultiUserDungeonsMUD.tag(), Classifier::Topic__GamesEntertainment__PuzzleGames.tag()),
{
    reveal_strlit("Topic :: Games/Entertainment :: Multi-User Dungeons (MUD)");
    reveal_strlit("Topic :: Games/Entertainment :: Puzzle Games");
    reveal_with_fuel(lex_lt_from, 34);
}

proof fn lex_adj_633()
    ensures
        lex_lt(Classifier::Topic__GamesEntertainment__PuzzleGames.tag(), Classifier::Topic__GamesEntertainment__RealTimeStrategy.tag()),
{
    reveal_strlit("Topic :: Games/Entertainment :: Puzzle Games");
    reveal_strlit("Topic :: Games/Entertainment :: Real Time Strategy");
    reveal_with_fuel(lex_lt_from, 34);
}

proof fn lex_adj_634()
    ensures
        lex_lt(Classifier::Topic__GamesEntertainment__RealTimeStrategy.tag(), Classifier::Topic__GamesEntertainment__RolePlaying.tag()),
{
    reveal_strlit("Topic :: Games/Entertainment :: Real Time Strategy");
    reveal_strlit("Topic :: Games/Entertainment :: Role-Playing");
    reveal_with_fuel(lex_lt_from, 35);
}

proof fn lex_adj_635()
    ensures
        lex_lt(Classifier::Topic__GamesEntertainment__RolePlaying.tag(), Classifier::Topic__GamesEntertainment__SideScrollingArcadeGames.tag()),
{
    reveal_strlit("Topic :: Games/Entertainment :: Role-Playing");
    reveal_strlit("Topic :: Games/Entertainment :: Side-Scrolling/Arcade Games");
    reveal_with_fuel(lex_lt_from, 34);
}

proof fn lex_adj_636()
    ensures
        lex_lt(Classifier::Topic__GamesEntertainment__SideScrollingArcadeGames.tag(), Classifier::Topic__GamesEntertainment__Simulation.tag()),
{
    reveal_strlit("Topic :: Games/Entertainment :: Side-Scrolling/Arcade Games");
    reveal_strlit("Topic :: Games/Entertainment :: Simulation");
    reveal_with_fuel(lex_lt_from, 36);
}

proof fn lex_adj_637()
    ensures
        lex_lt(Classifier::Topic__GamesEntertainment__Simulation.tag(), Classifier::Topic__GamesEntertainment__TurnBasedStrategy.tag()),
{
    reveal_strlit("Topic :: Games/Entertainment :: Simulation");
    reveal_strlit("Topic :: Games/Entertainment :: Turn Based Strategy");
    reveal_with_fuel(lex_lt_from, 34);
}

proof fn lex_adj_638()
    ensures
        lex_lt(Classifier::Topic__GamesEntertainment__TurnBasedStrategy.tag(), Classifier::Topic__HomeAutomation.tag()),
{
    reveal_strlit("Topic :: Games/Entertainment :: Turn Based Strategy");
    reveal_strlit("Topic :: Home Automation");
    reveal_with_fuel(lex_lt_from, 11);
}

proof fn lex_adj_639()
    ensures
        lex_lt(Classifier::Topic__HomeAutomation.tag(), Classifier::Topic__Internet.tag()),
{
    reveal_strlit("Topic :: Home Automation");
    reveal_strlit("Topic :: Internet");
    reveal_with_fuel(lex_lt_from, 11);
}

proof fn lex_adj_640()
    ensures
        lex_lt(Classifier::Topic__Internet.tag(), Classifier::Topic__Internet__FileTransferProtocolFTP.tag()),
{
    reveal_strlit("Topic :: Internet");
    reveal_strlit("Topic :: Internet :: File Transfer Protocol (FTP)");
    reveal_with_fuel(lex_lt_from, 19);
}

proof fn lex_adj_641()
    ensures
        lex_lt(Classifier::Topic__Internet__FileTransferProtocolFTP.tag(), Classifier::Topic__Internet__Finger.tag()),
{
    reveal_strlit("Topic :: Internet :: File Transfer Protocol (FTP)");
    reveal_strlit("Topic :: Internet :: Finger");
    reveal_with_fuel(lex_lt_from, 25);
}

proof fn lex_adj_642()
    ensures
        lex_lt(Classifier::Topic__Internet__Finger.tag(), Classifier::Topic__Internet__LogAnalysis.tag()),
{
    reveal_strlit("Topic :: Internet :: Finger");
    reveal_strlit("Topic :: Internet :: Log Analysis");
    reveal_with_fuel(lex_lt_from, 23);
}

proof fn lex_adj_643()
    ensures
        lex_lt(Classifier::Topic__Internet__LogAnalysis.tag(), Classifier::Topic__Internet__NameServiceDNS.tag()),
{
    reveal_strlit("Topic :: Internet :: Log Analysis");
    reveal_strlit("Topic :: Internet :: Name Service (DNS)");
    reveal_with_fuel(lex_lt_from, 23);
}

proof fn lex_adj_644()
    ensures
        lex_lt(Classifier::Topic__Internet__NameServiceDNS.tag(), Classifier::Topic__Internet__ProxyServers.tag()),
{
    reveal_strlit("Topic :: Internet :: Name Service (DNS)");
    reveal_strlit("Topic :: Internet :: Proxy Servers");
    reveal_with_fuel(lex_lt_from, 23);
}

proof fn lex_adj_645()
    ensures
        lex_lt(Classifier::Topic__Internet__ProxyServers.tag(), Classifier::Topic__Internet__WAP.tag()),
{
    reveal_strlit("Topic :: Internet :: Proxy Servers");
    reveal_strlit("Topic :: Internet :: WAP");
    reveal_with_fuel(lex_lt_from, 23);
}

proof fn lex_adj_646()
    ensures
        lex_lt(Classifier::Topic__Internet__WAP.tag(), Classifier::Topic__Internet__WWWHTTP.tag()),
{
    reveal_strlit("Topic :: Internet :: WAP");
    reveal_strlit("Topic :: Internet :: WWW/HTTP");
    reveal_with_fuel(lex_lt_from, 24);
}

proof fn lex_adj_647()
    ensures
        lex_lt(Classifier::Topic__Internet__WWWHTTP.tag(), Classifier::Topic__Internet__WWWHTTP__Browsers.tag()),
{
    reveal_strlit("Topic :: Internet :: WWW/HTTP");
    reveal_strlit("Topic :: Internet :: WWW/HTTP :: Browsers");
    reveal_with_fuel(lex_lt_from, 31);
}

proof fn lex_adj_648()
    ensures
        lex_lt(Classifier::Topic__Internet__WWWHTTP__Browsers.tag(), Classifier::Topic__Internet__WWWHTTP__DynamicContent.tag()),
{
    reveal_strlit("Topic :: Internet :: WWW/HTTP :: Browsers");
    reveal_strlit("Topic :: Internet :: WWW/HTTP :: Dynamic Content");
    reveal_with_fuel(lex_lt_from, 35);
}

proof fn lex_adj_649()
    ensures
        lex_lt(Classifier::Topic__Internet__WWWHTTP__DynamicContent.tag(), Classifier::Topic__Internet__WWWHTTP__DynamicContent__CGIToolsLibraries.tag()),
{
    reveal_strlit("Topic :: Internet :: WWW/HTTP :: Dynamic Content");
    reveal_strlit("Topic :: Internet :: WWW/HTTP :: Dynamic Content :: CGI Tools/Libraries");
    reveal_with_fuel(lex_lt_from, 50);
}

proof fn lex_adj_650()
    ensures
        lex_lt(Classifier::Topic__Internet__WWWHTTP__DynamicContent__CGIToolsLibraries.tag(), Classifier::Topic__Internet__WWWHTTP__DynamicContent__ContentManagementSystem.tag()),
{
    reveal_strlit("Topic :: Internet :: WWW/HTTP :: Dynamic Content :: CGI Tools/Libraries");
    reveal_strlit("Topic :: Internet :: WWW/HTTP :: Dynamic Content :: Content Management System");
    reveal_with_fuel(lex_lt_from, 55);
}

proof fn lex_adj_651()
    ensures
        lex_lt(Classifier::Topic__Internet__WWWHTTP__DynamicContent__ContentManagementSystem.tag(), Classifier::Topic__Internet__WWWHTTP__DynamicContent__MessageBoards.tag()),
{
    reveal_strlit("Topic :: Internet :: WWW/HTTP :: Dynamic Content :: Content Management System");
    reveal_strlit("Topic :: Internet :: WWW/HTTP :: Dynamic Content :: Message Boards");
    reveal_with_fuel(lex_lt_from, 54);
}

proof fn lex_adj_652()
    ensures
        lex_lt(Classifier::Topic__Internet__WWWHTTP__DynamicContent__MessageBoards.tag(), Classifier::Topic__Internet__WWWHTTP__DynamicContent__NewsDiary.tag()),
{
    reveal_strlit("Topic :: Internet :: WWW/HTTP :: Dynamic Content :: Message Boards");
    reveal_strlit("Topic :: Internet :: WWW/HTTP :: Dynamic Content :: News/Diary");
    reveal_with_fuel(lex_lt_from, 54);
}

proof fn lex_adj_653()
    ensures
        lex_lt(Classifier::Topic__Internet__WWWHTTP__DynamicContent__NewsDiary.tag(), Classifier::Topic__Internet__WWWHTTP__DynamicContent__PageCounters.tag()),
{
    reveal_strlit("Topic :: Internet :: WWW/HTTP :: Dynamic Content :: News/Diary");
    reveal_strlit("Topic :: Internet :: WWW/HTTP :: Dynamic Content :: Page Counters");
    reveal_with_fuel(lex_lt_from, 54);
}

proof fn lex_adj_654()
    ensures
        lex_lt(Classifier::Topic__Internet__WWWHTTP__DynamicContent__PageCounters.tag(), Classifier::Topic__Internet__WWWHTTP__DynamicContent__Wiki.tag()),
{
    reveal_strlit("Topic :: Internet :: WWW/HTTP :: Dynamic Content :: Page Counters");
    reveal_strlit("Topic :: Internet :: WWW/HTTP :: Dynamic Content :: Wiki");
    reveal_with_fuel(lex_lt_from, 54);
}

proof fn lex_adj_655()
    ensures
        lex_lt(Classifier::Topic__Internet__WWWHTTP__DynamicContent__Wiki.tag(), Classifier::Topic__Internet__WWWHTTP__HTTPServers.tag()),
{
    reveal_strlit("Topic :: Internet :: WWW/HTTP :: Dynamic Content :: Wiki");
    reveal_strlit("Topic :: Internet :: WWW/HTTP :: HTTP Servers");
    reveal_with_fuel(lex_lt_from, 35);
}

proof fn lex_adj_656()
    ensures
        lex_lt(Classifier::Topic__Internet__WWWHTTP__HTTPServers.tag(), Classifier::Topic__Internet__WWWHTTP__IndexingSearch.tag()),
{
    reveal_strlit("Topic :: Internet :: WWW/HTTP :: HTTP Servers");
    reveal_strlit("Topic :: Internet :: WWW/HTTP :: Indexing/Search");
    reveal_with_fuel(lex_lt_from, 35);
}

proof fn lex_adj_657()
    ensures
        lex_lt(Classifier::Topic__Internet__WWWHTTP__IndexingSearch.tag(), Classifier::Topic__Internet__WWWHTTP__Session.tag()),
{
    reveal_strlit("Topic :: Internet :: WWW/HTTP :: Indexing/Search");
    reveal_strlit("Topic :: Internet :: WWW/HTTP :: Session");
    reveal_with_fuel(lex_lt_from, 35);
}

proof fn lex_adj_658()
    ensures
        lex_lt(Classifier::Topic__Internet__WWWHTTP__Session.tag(), Classifier::Topic__Internet__WWWHTTP__SiteManagement.tag()),
{
    reveal_strlit("Topic :: Internet :: WWW/HTTP :: Session");
    reveal_strlit("Topic :: Internet :: WWW/HTTP :: Site Management");
    reveal_with_fuel(lex_lt_from, 36);
}

proof fn lex_adj_659()
    ensures
        lex_lt(Classifier::Topic__Internet__WWWHTTP__SiteManagement.tag(), Classifier::Topic__Internet__WWWHTTP__SiteManagement__LinkChecking.tag()),
{
    reveal_strlit("Topic :: Internet :: WWW/HTTP :: Site Management");
    reveal_strlit("Topic :: Internet :: WWW/HTTP :: Site Management :: Link Checking");
    reveal_with_fuel(lex_lt_from, 50);
}

proof fn lex_adj_660()
    ensures
        lex_lt(Classifier::Topic__Internet__WWWHTTP__SiteManagement__LinkChecking.tag(), Classifier::Topic__Internet__WWWHTTP__WSGI.tag()),
{
    reveal_strlit("Topic :: Internet :: WWW/HTTP :: Site Management :: Link Checking");
    reveal_strlit("Topic :: Internet :: WWW/HTTP :: WSGI");
    reveal_with_fuel(lex_lt_from, 35);
}

proof fn lex_adj_661()
    ensures
        lex_lt(Classifier::Topic__Internet__WWWHTTP__WSGI.tag(), Classifier::Topic__Internet__WWWHTTP__WSGI__Application.tag()),
{
    reveal_strlit("Topic :: Internet :: WWW/HTTP :: WSGI");
    reveal_strlit("Topic :: Internet :: WWW/HTTP :: WSGI :: Application");
    reveal_with_fuel(lex_lt_from, 39);
}

proof fn lex_adj_662()
    ensures
        lex_lt(Classifier::Topic__Internet__WWWHTTP__WSGI__Application.tag(), Classifier::Topic__Internet__WWWHTTP__WSGI__Middleware.tag()),
{
    reveal_strlit("Topic :: Internet :: WWW/HTTP :: WSGI :: Application");
    reveal_strlit("Topic :: Internet :: WWW/HTTP :: WSGI :: Middleware");
    reveal_with_fuel(lex_lt_from, 43);
}

proof fn lex_adj_663()
    ensures
        lex_lt(Classifier::Topic__Internet__WWWHTTP__WSGI__Middleware.tag(), Classifier::Topic__Internet__WWWHTTP__WSGI__Server.tag()),
{
    reveal_strlit("Topic :: Internet :: WWW/HTTP :: WSGI :: Middleware");
    reveal_strlit("Topic :: Internet :: WWW/HTTP :: WSGI :: Server");
    reveal_with_fuel(lex_lt_from, 43);
}

proof fn lex_adj_664()
    ensures
        lex_lt(Classifier::Topic__Internet__WWWHTTP__WSGI__Server.tag(), Classifier::Topic__Internet__XMPP.tag()),
{
    reveal_strlit("Topic :: Internet :: WWW/HTTP :: WSGI :: Server");
    reveal_strlit("Topic :: Internet :: XMPP");
    reveal_with_fuel(lex_lt_from, 23);
}

proof fn lex_adj_665()
    ensures
        lex_lt(Classifier::Topic__Internet__XMPP.tag(), Classifier::Topic__Internet__Z39_50.tag()),
{
    reveal_strlit("Topic :: Internet :: XMPP");
    reveal_strlit("Topic :: Internet :: Z39.50");
    reveal_with_fuel(lex_lt_from, 23);
}

proof fn lex_adj_666()
    ensures
        lex_lt(Classifier::Topic__Internet__Z39_50.tag(), Classifier::Topic__Multimedia.tag()),
{
    reveal_strlit("Topic :: Internet :: Z39.50");
    reveal_strlit("Topic :: Multimedia");
    reveal_with_fuel(lex_lt_from, 11);
}

proof fn lex_adj_667()
    ensures
        lex_lt(Classifier::Topic__Multimedia.tag(), Classifier::Topic__Multimedia__Graphics.tag()),
{
    reveal_strlit("Topic :: Multimedia");
    reveal_strlit("Topic :: Multimedia :: Graphics");
    reveal_with_fuel(lex_lt_from, 21);
}

proof fn lex_adj_668()
    ensures
        lex_lt(Classifier::Topic__Multimedia__Graphics.tag(), Classifier::Topic__Multimedia__Graphics__3DModeling.tag()),
{
    reveal_strlit("Topic :: Multimedia :: Graphics");
    reveal_strlit("Topic :: Multimedia :: Graphics :: 3D Modeling");
    reveal_with_fuel(lex_lt_from, 33);
}

proof fn lex_adj_669()
    ensures
        lex_lt(Classifier::Topic__Multimedia__Graphics__3DModeling.tag(), Classifier::Topic__Multimedia__Graphics__3DRendering.tag()),
{
    reveal_strlit("Topic :: Multimedia :: Graphics :: 3D Modeling");
    reveal_strlit("Topic :: Multimedia :: Graphics :: 3D Rendering");
    reveal_with_fuel(lex_lt_from, 40);
}

proof fn lex_adj_670()
    ensures
        lex_lt(Classifier::Topic__Multimedia__Graphics__3DRendering.tag(), Classifier::Topic__Multimedia__Graphics__Capture.tag()),
{
    reveal_strlit("Topic :: Multimedia :: Graphics :: 3D Rendering");
    reveal_strlit("Topic :: Multimedia :: Graphics :: Capture");
    reveal_with_fuel(lex_lt_from, 37);
}

proof fn lex_adj_671()
    ensures
        lex_lt(Classifier::Topic__Multimedia__Graphics__Capture.tag(), Classifier::Topic__Multimedia__Graphics__Capture__DigitalCamera.tag()),
{
    reveal_strlit("Topic :: Multimedia :: Graphics :: Capture");
    reveal_strlit("Topic :: Multimedia :: Graphics :: Capture :: Digital Camera");
    reveal_with_fuel(lex_lt_from, 44);
}

proof fn lex_adj_672()
    ensures
        lex_lt(Classifier::Topic__Multimedia__Graphics__Capture__DigitalCamera.tag(), Classifier::Topic__Multimedia__Graphics__Capture__Scanners.tag()),
{
    reveal_strlit("Topic :: Multimedia :: Graphics :: Capture :: Digital Camera");
    reveal_strlit("Topic :: Multimedia :: Graphics :: Capture :: Scanners");
    reveal_with_fuel(lex_lt_from, 48);
}

proof fn lex_adj_673()
    ensures
        lex_lt(Classifier::Topic__Multimedia__Graphics__Capture__Scanners.tag(), Classifier::Topic__Multimedia__Graphics__Capture__ScreenCapture.tag()),
{
    reveal_strlit("Topic :: Multimedia :: Graphics :: Capture :: Scanners");
    reveal_strlit("Topic :: Multimedia :: Graphics :: Capture :: Screen Capture");
    reveal_with_fuel(lex_lt_from, 50);
}

proof fn lex_adj_674()
    ensures
        lex_lt(Classifier::Topic__Multimedia__Graphics__Capture__ScreenCapture.tag(), Classifier::Topic__Multimedia__Graphics__Editors.tag()),
{
    reveal_strlit("Topic :: Multimedia :: Graphics :: Capture :: Screen Capture");
    reveal_strlit("Topic :: Multimedia :: Graphics :: Editors");
    reveal_with_fuel(lex_lt_from, 37);
}

proof fn lex_adj_675()
    ensures
        lex_lt(Classifier::Topic__Multimedia__Graphics__Editors.tag(), Classifier::Topic__Multimedia__Graphics__Editors__RasterBased.tag()),
{
    reveal_strlit("Topic :: Multimedia :: Graphics :: Editors");
    reveal_strlit("Topic :: Multimedia :: Graphics :: Editors :: Raster-Based");
    reveal_with_fuel(lex_lt_from, 44);
}

proof fn lex_adj_676()
    ensures
        lex_lt(Classifier::Topic__Multimedia__Graphics__Editors__RasterBased.tag(), Classifier::Topic__Multimedia__Graphics__Editors__VectorBased.tag()),
{
    reveal_strlit("Topic :: Multimedia :: Graphics :: Editors :: Raster-Based");
    reveal_strlit("Topic :: Multimedia :: Graphics :: Editors :: Vector-Based");
    reveal_with_fuel(lex_lt_from, 48);
}

proof fn lex_adj_677()
    ensures
        lex_lt(Classifier::Topic__Multimedia__Graphics__Editors__VectorBased.tag(), Classifier::Topic__Multimedia__Graphics__GraphicsConversion.tag()),
{
    reveal_strlit("Topic :: Multimedia :: Graphics :: Editors :: Vector-Based");
    reveal_strlit("Topic :: Multimedia :: Graphics :: Graphics Conversion");
    reveal_with_fuel(lex_lt_from, 37);
}

proof fn lex_adj_678()
    ensures
        lex_lt(Classifier::Topic__Multimedia__Graphics__GraphicsConversion.tag(), Classifier::Topic__Multimedia__Graphics__Presentation.tag()),
{
    reveal_strlit("Topic :: Multimedia :: Graphics :: Graphics Conversion");
    reveal_strlit("Topic :: Multimedia :: Graphics :: Presentation");
    reveal_with_fuel(lex_lt_from, 37);
}

proof fn lex_adj_679()
    ensures
        lex_lt(Classifier::Topic__Multimedia__Graphics__Presentation.tag(), Classifier::Topic__Multimedia__Graphics__Viewers.tag()),
{
    reveal_strlit("Topic :: Multimedia :: Graphics :: Presentation");
    reveal_strlit("Topic :: Multimedia :: Graphics :: Viewers");
    reveal_with_fuel(lex_lt_from, 37);
}

proof fn lex_adj_680()
    ensures
        lex_lt(Classifier::Topic__Multimedia__Graphics__Viewers.tag(), Classifier::Topic__Multimedia__SoundAudio.tag()),
{
    reveal_strlit("Topic :: Multimedia :: Graphics :: Viewers");
    reveal_strlit("Topic :: Multimedia :: Sound/Audio");
    reveal_with_fuel(lex_lt_from, 25);
}

proof fn lex_adj_681()
    ensures
        lex_lt(Classifier::Topic__Multimedia__SoundAudio.tag(), Classifier::Topic__Multimedia__SoundAudio__Analysis.tag()),
{
    reveal_strlit("Topic :: Multimedia :: Sound/Audio");
    reveal_strlit("Topic :: Multimedia :: Sound/Audio :: Analysis");
    reveal_with_fuel(lex_lt_from, 36);
}

proof fn lex_adj_682()
    ensures
        lex_lt(Classifier::Topic__Multimedia__SoundAudio__Analysis.tag(), Classifier::Topic__Multimedia__SoundAudio__CDAudio.tag()),
{
    reveal_strlit("Topic :: Multimedia :: Sound/Audio :: Analysis");
    reveal_strlit("Topic :: Multimedia :: Sound/Audio :: CD Audio");
    reveal_with_fuel(lex_lt_from, 40);
}

proof fn lex_adj_683()
    ensures
        lex_lt(Classifier::Topic__Multimedia__SoundAudio__CDAudio.tag(), Classifier::Topic__Multimedia__SoundAudio__CDAudio__CDPlaying.tag()),
{
    reveal_strlit("Topic :: Multimedia :: Sound/Audio :: CD Audio");
    reveal_strlit("Topic :: Multimedia :: Sound/Audio :: CD Audio :: CD Playing");
    reveal_with_fuel(lex_lt_from, 48);
}

proof fn lex_adj_684()
    ensures
        lex_lt(Classifier::Topic__Multimedia__SoundAudio__CDAudio__CDPlaying.tag(), Classifier::Topic__Multimedia__SoundAudio__CDAudio__CDRipping.tag()),
{
    reveal_strlit("Topic :: Multimedia :: Sound/Audio :: CD Audio :: CD Playing");
    reveal_strlit("Topic :: Multimedia :: Sound/Audio :: CD Audio :: CD Ripping");
    reveal_with_fuel(lex_lt_from, 55);
}

proof fn lex_adj_685()
    ensures
        lex_lt(Classifier::Topic__Multimedia__SoundAudio__CDAudio__CDRipping.tag(), Classifier::Topic__Multimedia__SoundAudio__CDAudio__CDWriting.tag()),
{
    reveal_strlit("Topic :: Multimedia :: Sound/Audio :: CD Audio :: CD Ripping");
    reveal_strlit("Topic :: Multimedia :: Sound/Audio :: CD Audio :: CD Writing");
    reveal_with_fuel(lex_lt_from, 55);
}

proof fn lex_adj_686()
    ensures
        lex_lt(Classifier::Topic__Multimedia__SoundAudio__CDAudio__CDWriting.tag(), Classifier::Topic__Multimedia__SoundAudio__CaptureRecording.tag()),
{
    reveal_strlit("Topic :: Multimedia :: Sound/Audio :: CD Audio :: CD Writing");
    reveal_strlit("Topic :: Multimedia :: Sound/Audio :: Capture/Recording");
    reveal_with_fuel(lex_lt_from, 41);
}

proof fn lex_adj_687()
    ensures
        lex_lt(Classifier::Topic__Multimedia__SoundAudio__CaptureRecording.tag(), Classifier::Topic__Multimedia__SoundAudio__Conversion.tag()),
{
    reveal_strlit("Topic :: Multimedia :: Sound/Audio :: Capture/Recording");
    reveal_strlit("Topic :: Multimedia :: Sound/Audio :: Conversion");
    reveal_with_fuel(lex_lt_from, 41);
}

proof fn lex_adj_688()
    ensures
        lex_lt(Classifier::Topic__Multimedia__SoundAudio__Conversion.tag(), Classifier::Topic__Multimedia__SoundAudio__Editors.tag()),
{
    reveal_strlit("Topic :: Multimedia :: Sound/Audio :: Conversion");
    reveal_strlit("Topic :: Multimedia :: Sound/Audio :: Editors");
    reveal_with_fuel(lex_lt_from, 40);
}

proof fn lex_adj_689()
    ensures
        lex_lt(Classifier::Topic__Multimedia__SoundAudio__Editors.tag(), Classifier::Topic__Multimedia__SoundAudio__MIDI.tag()),
{
    reveal_strlit("Topic :: Multimedia :: Sound/Audio :: Editors");
    reveal_strlit("Topic :: Multimedia :: Sound/Audio :: MIDI");
    reveal_with_fuel(lex_lt_from, 40);
}

proof fn lex_adj_690()
    ensures
        lex_lt(Classifier::Topic__Multimedia__SoundAudio__MIDI.tag(), Classifier::Topic__Multimedia__SoundAudio__Mixers.tag()),
{
    reveal_strlit("Topic :: Multimedia :: Sound/Audio :: MIDI");
    reveal_strlit("Topic :: Multimedia :: Sound/Audio :: Mixers");
    reveal_with_fuel(lex_lt_from, 41);
}

proof fn lex_adj_691()
    ensures
        lex_lt(Classifier::Topic__Multimedia__SoundAudio__Mixers.tag(), Classifier::Topic__Multimedia__SoundAudio__Players.tag()),
{
    reveal_strlit("Topic :: Multimedia :: Sound/Audio :: Mixers");
    reveal_strlit("Topic :: Multimedia :: Sound/Audio :: Players");
    reveal_with_fuel(lex_lt_from, 40);
}

proof fn lex_adj_692()
    ensures
        lex_lt(Classifier::Topic__Multimedia__SoundAudio__Players.tag(), Classifier::Topic__Multimedia__SoundAudio__Players__MP3.tag()),
{
    reveal_strlit("Topic :: Multimedia :: Sound/Audio :: Players");
    reveal_strlit("Topic :: Multimedia :: Sound/Audio :: Players :: MP3");
    reveal_with_fuel(lex_lt_from, 47);
}

proof fn lex_adj_693()
    ensures
        lex_lt(Classifier::Topic__Multimedia__SoundAudio__Players__MP3.tag(), Classifier::Topic__Multimedia__SoundAudio__SoundSynthesis.tag()),
{
    reveal_strlit("Topic :: Multimedia :: Sound/Audio :: Players :: MP3");
    reveal_strlit("Topic :: Multimedia :: Sound/Audio :: Sound Synthesis");
    reveal_with_fuel(lex_lt_from, 40);
}

proof fn lex_adj_694()
    ensures
        lex_lt(Classifier::Topic__Multimedia__SoundAudio__SoundSynthesis.tag(), Classifier::Topic__Multimedia__SoundAudio__Speech.tag()),
{
    reveal_strlit("Topic :: Multimedia :: Sound/Audio :: Sound Synthesis");
    reveal_strlit("Topic :: Multimedia :: Sound/Audio :: Speech");
    reveal_with_fuel(lex_lt_from, 41);
}

proof fn lex_adj_695()
    ensures
        lex_lt(Classifier::Topic__Multimedia__SoundAudio__Speech.tag(), Classifier::Topic__Multimedia__Video.tag()),
{
    reveal_strlit("Topic :: Multimedia :: Sound/Audio :: Speech");
    reveal_strlit("Topic :: Multimedia :: Video");
    reveal_with_fuel(lex_lt_from, 25);
}

proof fn lex_adj_696()
    ensures
        lex_lt(Classifier::Topic__Multimedia__Video.tag(), Classifier::Topic__Multimedia__Video__Capture.tag()),
{
    reveal_strlit("Topic :: Multimedia :: Video");
    reveal_strlit("Topic :: Multimedia :: Video :: Capture");
    reveal_with_fuel(lex_lt_from, 30);
}

proof fn lex_adj_697()
    ensures
        lex_lt(Classifier::Topic__Multimedia__Video__Capture.tag(), Classifier::Topic__Multimedia__Video__Conversion.tag()),
{
    reveal_strlit("Topic :: Multimedia :: Video :: Capture");
    reveal_strlit("Topic :: Multimedia :: Video :: Conversion");
    reveal_with_fuel(lex_lt_from, 35);
}

proof fn lex_adj_698()
    ensures
        lex_lt(Classifier::Topic__Multimedia__Video__Conversion.tag(), Classifier::Topic__Multimedia__Video__Display.tag()),
{
    reveal_strlit("Topic :: Multimedia :: Video :: Conversion");
    reveal_strlit("Topic :: Multimedia :: Video :: Display");
    reveal_with_fuel(lex_lt_from, 34);
}

proof fn lex_adj_699()
    ensures
        lex_lt(Classifier::Topic__Multimedia__Video__Display.tag(), Classifier::Topic__Multimedia__Video__NonLinearEditor.tag()),
{
    reveal_strlit("Topic :: Multimedia :: Video :: Display");
    reveal_strlit("Topic :: Multimedia :: Video :: Non-Linear Editor");
    reveal_with_fuel(lex_lt_from, 34);
}

/// Adjacent tags within this stretch of the lexicographic order.
pub(crate) proof fn lemma_adjacent_lex_e(i: int)
    requires
        560 <= i < 700,
    ensures
        lex_lt(classifier_of_rank(i).tag(), classifier_of_rank(i + 1).tag()),
{
    if i == 560 {
        lex_adj_560();
    }
    if i == 561 {
        lex_adj_561();
    }
    if i == 562 {
        lex_adj_562();
    }
    if i == 563 {
        lex_adj_563();
    }
    if i == 564 {
        lex_adj_564();
    }
    if i == 565 {
        lex_adj_565();
    }
    if i == 566 {
        lex_adj_566();
    }
    if i == 567 {
        lex_adj_567();
    }
    if i == 568 {
        lex_adj_568();
    }
    if i == 569 {
        lex_adj_569();
    }
    if i == 570 {
        lex_adj_570();
    }
    if i == 571 {
        lex_adj_571();
    }
    if i == 572 {
        lex_adj_572();
    }
    if i == 573 {
        lex_adj_573();
    }
    if i == 574 {
        lex_adj_574();
    }
    if i == 575 {
        lex_adj_575();
    }
    if i == 576 {
        lex_adj_576();
    }
    if i == 577 {
        lex_adj_577();
    }
    if i == 578 {
        lex_adj_578();
    }
    if i == 579 {
        lex_adj_579();
    }
    if i == 580 {
        lex_adj_580();
    }
    if i == 581 {
        lex_adj_581();
    }
    if i == 582 {
        lex_adj_582();
    }
    if i == 583 {
        lex_adj_583();
    }
    if i == 584 {
        lex_adj_584();
    }
    if i == 585 {
        lex_adj_585();
    }
    if i == 586 {
        lex_adj_586();
    }
    if i == 587 {
        lex_adj_587();
    }
    if i == 588 {
        lex_adj_588();
    }
    if i == 589 {
        lex_adj_589();
    }
    if i == 590 {
        lex_adj_590();
    }
    if i == 591 {
        lex_adj_591();
    }
    if i == 592 {
        lex_adj_592();
    }
    if i == 593 {
        lex_adj_593();
    }
    if i == 594 {
        lex_adj_594();
    }
    if i == 595 {
        lex_adj_595();
    }
    if i == 596 {
        lex_adj_596();
    }
    if i == 597 {
        lex_adj_597();
    }
    if i == 598 {
        lex_adj_598();
    }
    if i == 599 {
        lex_adj_599();
    }
    if i == 600 {
        lex_adj_600();
    }
    if i == 601 {
        lex_adj_601();
    }
    if i == 602 {
        lex_adj_602();
    }
    if i == 603 {
        lex_adj_603();
    }
    if i == 604 {
        lex_adj_604();
    }
    if i == 605 {
        lex_adj_605();
    }
    if i == 606 {
        lex_adj_606();
    }
    if i == 607 {
        lex_adj_607();
    }
    if i == 608 {
        lex_adj_608();
    }
    if i == 609 {
        lex_adj_609();
    }
    if i == 610 {
        lex_adj_610();
    }
    if i == 611 {
        lex_adj_611();
    }
    if i == 612 {
        lex_adj_612();
    }
    if i == 613 {
        lex_adj_613();
    }
    if i == 614 {
        lex_adj_614();
    }
    if i == 615 {
        lex_adj_615();
    }
    if i == 616 {
        lex_adj_616();
    }
    if i == 617 {
        lex_adj_617();
    }
    if i == 618 {
        lex_adj_618();
    }
    if i == 619 {
        lex_adj_619();
    }
    if i == 620 {
        lex_adj_620();
    }
    if i == 621 {
        lex_adj_621();
    }
    if i == 622 {
        lex_adj_622();
    }
    if i == 623 {
        lex_adj_623();
    }
    if i == 624 {
        lex_adj_624();
    }
    if i == 625 {
        lex_adj_625();
    }
    if i == 626 {
        lex_adj_626();
    }
    if i == 627 {
        lex_adj_627();
    }
    if i == 628 {
        lex_adj_628();
    }
    if i == 629 {
        lex_adj_629();
    }
    if i == 630 {
        lex_adj_630();
    }
    if i == 631 {
        lex_adj_631();
    }
    if i == 632 {
        lex_adj_632();
    }
    if i == 633 {
        lex_adj_633();
    }
    if i == 634 {
        lex_adj_634();
    }
    if i == 635 {
        lex_adj_635();
    }
    if i == 636 {
        lex_adj_636();
    }
    if i == 637 {
        lex_adj_637();
    }
    if i == 638 {
        lex_adj_638();
    }
    if i == 639 {
        lex_adj_639();
    }
    if i == 640 {
        lex_adj_640();
    }
    if i == 641 {
        lex_adj_641();
    }
    if i == 642 {
        lex_adj_642();
    }
    if i == 643 {
        lex_adj_643();
    }
    if i == 644 {
        lex_adj_644();
    }
    if i == 645 {
        lex_adj_645();
    }
    if i == 646 {
        lex_adj_646();
    }
    if i == 647 {
        lex_adj_647();
    }
    if i == 648 {
        lex_adj_648();
    }
    if i == 649 {
        lex_adj_649();
    }
    if i == 650 {
        lex_adj_650();
    }
    if i == 651 {
        lex_adj_651();
    }
    if i == 652 {
        lex_adj_652();
    }
    if i == 653 {
        lex_adj_653();
    }
    if i == 654 {
        lex_adj_654();
    }
    if i == 655 {
        lex_adj_655();
    }
    if i == 656 {
        lex_adj_656();
    }
    if i == 657 {
        lex_adj_657();
    }
    if i == 658 {
        lex_adj_658();
    }
    if i == 659 {
        lex_adj_659();
    }
    if i == 660 {
        lex_adj_660();
    }
    if i == 661 {
        lex_adj_661();
    }
    if i == 662 {
        lex_adj_662();
    }
    if i == 663 {
        lex_adj_663();
    }
    if i == 664 {
        lex_adj_664();
    }
    if i == 665 {
        lex_adj_665();
    }
    if i == 666 {
        lex_adj_666();
    }
    if i == 667 {
        lex_adj_667();
    }
    if i == 668 {
        lex_adj_668();
    }
    if i == 669 {
        lex_adj_669();
    }
    if i == 670 {
        lex_adj_670();
    }
    if i == 671 {
        lex_adj_671();
    }
    if i == 672 {
        lex_adj_672();
    }
    if i == 673 {
        lex_adj_673();
    }
    if i == 674 {
        lex_adj_674();
    }
    if i == 675 {
        lex_adj_675();
    }
    if i == 676 {
        lex_adj_676();
    }
    if i == 677 {
        lex_adj_677();
    }
    if i == 678 {
        lex_adj_678();
    }
    if i == 679 {
        lex_adj_679();
    }
    if i == 680 {
        lex_adj_680();
    }
    if i == 681 {
        lex_adj_681();
    }
    if i == 682 {
        lex_adj_682();
    }
    if i == 683 {
        lex_adj_683();
    }
    if i == 684 {
        lex_adj_684();
    }
    if i == 685 {
        lex_adj_685();
    }
    if i == 686 {
        lex_adj_686();
    }
    if i == 687 {
        lex_adj_687();
    }
    if i == 688 {
        lex_adj_688();
    }
    if i == 689 {
        lex_adj_689();
    }
    if i == 690 {
        lex_adj_690();
    }
    if i == 691 {
        lex_adj_691();
    }
    if i == 692 {
        lex_adj_692();
    }
    if i == 693 {
        lex_adj_693();
    }
    if i == 694 {
        lex_adj_694();
    }
    if i == 695 {
        lex_adj_695();
    }
    if i == 696 {
        lex_adj_696();
    }
    if i == 697 {
        lex_adj_697();
    }
    if i == 698 {
        lex_adj_698();
    }
    if i == 699 {
        lex_adj_699();
    }
}

} // verus!
