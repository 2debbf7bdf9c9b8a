//! The raw limb data of permutation width 9: the `(8 + 63) * 9`
//! additive round constants and the `9 * 9` row-major mixing matrix,
//! each entry a canonical field value below the modulus, little-endian in
//! four 64-bit limbs.

use vstd::prelude::*;

verus! {

use vstd::slice::slice_to_vec;

const C_T9: [[u64; 4]; 639] = [
    [1898280248850124407, 6401424918302018560, 10081233297564194517, 2344350746269940723],
    [8370600580480330721, 15140150009984319481, 17599201375549746324, 1983525818537914666],
    [963014773771968873, 11866108974019534676, 1113886723914189264, 705378678046207255],
    [4101360975294950612, 16297546958934563017, 2602916671106882534, 2845828375846795268],
    [10688266923599639145, 12437716513733529285, 16208246540973478682, 1708410860245148234],
    [12068901669225282246, 8487323181880384055, 11540160442885808995, 1281063641454862580],
    [17277400395290494397, 2834288396297943074, 18122102284742273879, 2078504862631188450],
    [6494075181652439698, 3237388643365173067, 13810716921725992304, 3222665557401584828],
    [7297231816968807213, 12417256982855579728, 2590267141009753381, 2268399750765512569],
    [13906995545690545621, 5093860753397280868, 6673940643652463321, 3104413258516214692],
    [4601152759722155171, 437790660401869669, 11964430530716998536, 2506420703684958675],
    [11997520749496187134, 6444713976142300506, 17788541300143019013, 1918295056751023320],
    [5339591579661176531, 2694256189508679932, 14870368415698781710, 291518106373482723],
    [3303485281150143358, 13568651184169195946, 17192291243972232658, 1639116020749866087],
    [17041567071404634778, 11811261012939773495, 2034484089042928528, 1172603767838450123],
    [7870992077652425993, 2542614928915656950, 15955385507816399861, 2784097575160868360],
    [7901638211607313774, 1670538514628294760, 9127864729194276205, 2928855551811027768],
    [1863971298573195046, 18189344655952144907, 14737854802096230812, 1759748755508575512],
    [9311134550958896359, 1566579164181195512, 7806310051309073373, 3189088369545219144],
    [3974420271517126010, 7689651392253517928, 13029704051020639652, 1262769750697478259],
    [201361090018568164, 9324401654833530507, 6888051258198156627, 1406221732573822647],
    [3891920661951313001, 1392138496783915030, 8350685943627449599, 1873589009023616405],
    [1024273923640418386, 14279116071122389830, 11341350774831401773, 3122141631907619160],
    [10964155906861741453, 10446238474801721611, 10034600352061730622, 2395480573209907718],
    [9123733731606932356, 8775383474977339316, 16095064321043864969, 167819627431256857],
    [17214490561679367883, 1850322377179047836, 13622367302604082355, 593194733425913151],
    [8071045148273528348, 8912030942862351914, 13568319874560283815, 732721953050741333],
    [6051411860609297161, 5153742057775078560, 4384020992739692058, 2913988199246513449],
    [8631796138051798407, 5143112880839889682, 3046469663285173862, 47847181656476610],
    [4065498052763767062, 4582169378883986449, 3273765912543740002, 2124006622428656294],
    [7235055837620509891, 156080250125856397, 9045380330377129105, 2102519626924260106],
    [15763284217570750893, 16744370992690476266, 3403518626307678791, 81373332794170281],
    [4855705460406051074, 6747984285027047254, 3901950289326015786, 268529042397010763],
    [7644468798658590155, 11759230636308262496, 15579554339821316023, 2406197275050803684],
    [11007317502569990148, 14065784907696500198, 2339511572330129773, 1060011957287333467],
    [3601216695307093494, 8180612457328979048, 7626064072587938802, 1474375269137015806],
    [16129824218949918514, 4903992145403029476, 10546559535809289483, 2709300894119186305],
    [10784146844295224097, 16949171019125906049, 3454517017918828631, 123163899861005845],
    [9066912017018174802, 14438267467968408472, 8589728088758901227, 1062828700652460404],
    [7221462186650903340, 14249515893956604525, 13461768164086046232, 3315692873932279345],
    [2478722623039832329, 3530663211247184186, 11625972878917710968, 184318332256060724],
    [7624886176895760844, 7369533342283823393, 8513782688794015104, 2437934002320477427],
    [10543268100253620326, 2478785358753241356, 11340468223080350314, 3026840391751505918],
    [16226754079032385922, 4470558986815767904, 804795022192897929, 602621582926244683],
    [2791175340779385003, 15016073794176201635, 5700183903943725171, 129111163847727772],
    [5286947811468491119, 17191425700100580199, 11008237714036811770, 627787772794546145],
    [8380771588096687606, 12234192936866604905, 12198527651165574576, 194690519523524731],
    [3100019500969144230, 11170268527091174423, 11179244567948903325, 1896062151035182767],
    [7650716588188690761, 12798182031766876753, 1877901635266315245, 3479212366219401972],
    [6806544228478005804, 16616723060695951474, 3943449893488659754, 130613328768857975],
    [10863158797377735712, 5700287556967341336, 5274881021470365221, 464866895113862046],
    [5940343126800247796, 9081744706811999636, 9846239764992027712, 1718691479068640789],
    [18374973239301589744, 10392628795250413061, 5233265719887496013, 2166525146371518868],
    [7016856937417543220, 14141416118055059138, 2603698266286431126, 795493048253013243],
    [13651415067936820321, 12474209185440654140, 2002518856057598756, 155015893388479619],
    [8112038246101245180, 12450981787955447188, 13159603573004919332, 2280236461022208381],
    [7879451380309492628, 11420570548266382753, 14187816267082265432, 2986533901544676148],
    [4729203641424071364, 15800029208078666398, 15522133199418565481, 2312695259745074499],
    [13120304499425502738, 15592760929961718067, 11062728981493355477, 3221741330130729720],
    [15598705664059323583, 6654498340699245119, 17505920729394717971, 465883987385435030],
    [17201189045986203729, 2168077494013918475, 8594009881608963609, 77335200247740836],
    [552832413017381463, 16901165793023636141, 9062661925081040050, 3434782123183010859],
    [4035246588906389674, 7856722439343432746, 15472581730542827495, 1251614027237069361],
    [2837860789129843253, 438622748515726689, 14213175952152574666, 239784530252926943],
    [1216728272244076814, 14619464135295778496, 1168185890551127905, 3004860107859930281],
    [12245783243109613988, 15646203440321325219, 15035816083448107514, 1906072230840910345],
    [13275460801392160863, 6600973601423007182, 13108328012318446687, 2830093272458554014],
    [14452839525245562829, 4147596342469694178, 15979091299071167865, 2638518273341089410],
    [14679051883498624226, 12669920079068872739, 1739125234252363445, 532346853644716441],
    [5134638275430364430, 16294264204391318598, 10078375242106427705, 509493135621687870],
    [12672809985151626290, 16305807962289237138, 7216616708218702176, 1565983913289959735],
    [9284171140778790417, 10007099939490631851, 479639424831762298, 955763162735431259],
    [15868499853182672396, 15922377515920299191, 12890255230152507411, 3170455470136641378],
    [11843189821919450816, 17894256615069432365, 10271321063539333795, 2660011954251452624],
    [982705163619917756, 410136783731216078, 828815840069242610, 3054260927461188724],
    [4949926074347976169, 12162681406475137734, 5083695430380887241, 885369963227195211],
    [5908350058882954188, 18434953735561844081, 14000932600714299180, 764289487002291587],
    [1136679333386109857, 17294065547842071601, 13447993189225806236, 2454877241732906025],
    [16299660179655745696, 12036509774508995637, 15104406150069607602, 1657932981946784323],
    [7180971258175346912, 13613003916273743766, 6698785608690346459, 403836912004366440],
    [6850750953889592729, 7639019940490104387, 3868338751618128045, 2571384625270874231],
    [15633290769196467478, 6809779375951559278, 10709778486632465135, 1197625577827642751],
    [7491469947873866534, 4001204666302067103, 7577206907383024992, 2799494018901857277],
    [18086639502273663230, 7237855803563419905, 14951332274934028186, 2660112449035354558],
    [14938488321574640572, 11019967564786915700, 12554190581211082942, 6097585525739155],
    [6128259251255565340, 9397837767343859033, 1408916026983566612, 3151172216687442858],
    [6102101683137351209, 2134278693388079222, 16907004803589691001, 728587412113903959],
    [1169454536863129538, 14856426756146754685, 818767010651383549, 759594992026843309],
    [124532757154884310, 3132210545646517049, 3009644958308844612, 2798570639682172130],
    [679585055901640837, 2222102070052245191, 5684848003376950295, 1828486964090548900],
    [1184653512400162884, 166727228607351735, 17401404950292539092, 543070229184349379],
    [12750634560074478723, 10283082787820035266, 13290457131682129954, 396455349347185651],
    [9406862819541725150, 3072739876968364418, 12076550467853598006, 1930279037471751648],
    [10013018809057811264, 14772061454090035800, 2911342947477447779, 2530026377637259864],
    [6349133807314560813, 10695537838532907391, 6902990133907501823, 3331844000503175118],
    [8660639340132827150, 1707635903259652140, 11762065856092362719, 681193857331833205],
    [4160008184093284786, 17129574738630206097, 11380257070407985844, 2086786913146512037],
    [17838432571076645513, 9565599369955405597, 17688225819202612369, 1273752202729624844],
    [4748942159005342439, 17111755109693653035, 868980713938900886, 587996811278533098],
    [3328416991672335606, 9603140900649717736, 3482132352633671577, 200164615583068450],
    [17423646853788824258, 3894813790117711912, 13881093985748881782, 701994830325778468],
    [15908017573053260475, 3068145271211975399, 9351364639186169679, 2131691429383442005],
    [17955593095201249003, 3886029778040447399, 497453832041854614, 3135230274801478433],
    [17420824307303092302, 2584974330856083594, 16265518214548675273, 1356631425055399748],
    [15348637480037694459, 5805990908715730474, 11851105587350828981, 2930126772219866478],
    [15876138276153859240, 878518349694434242, 15325048389460483977, 3158082421401961208],
    [4432907779086051443, 17555192133768813486, 13502441622397578696, 2822913467684164707],
    [16189581550176502717, 472684929004950254, 4287954259490642451, 1393203925311531664],
    [3229480047660447528, 201674023892873561, 7875219640123215659, 519247376521104097],
    [7871471757620256084, 7094406046413299323, 2889513914688623330, 538413965248755566],
    [5528264543316182684, 2871950188283756387, 4849541703760632273, 1638124443865393765],
    [15392823778787865551, 3633762542552269248, 7535707872202511966, 1343172069985112140],
    [2255054275725349695, 11031021559973285249, 17594891973457598079, 2248977110764859611],
    [8208019173494742972, 3454636322117635181, 4742103386631671587, 2726295270084708964],
    [1826343940499120298, 9794850777632754861, 3906909419726772078, 1578151964464514618],
    [14674899158569372106, 4749932295823701417, 9132470025787665485, 113327713534812855],
    [8109512178847169401, 12747549622687660231, 16895554259255802580, 1751708835097979437],
    [14210444589365254246, 8209745845157970474, 18424935119354647779, 2739787217549217877],
    [4407415611856629073, 9636751773197842620, 16143119590333957157, 497318042431335471],
    [1143425321926432077, 16267237372046939071, 16324905084313406330, 1404762280826590669],
    [5474660872488917942, 7266506901573919454, 4297132395583722494, 3357313738588419893],
    [10601881897405588499, 522518685124566781, 16586027768457401746, 1418423409394088038],
    [18388146230079552866, 5288956891813883827, 5104122643241727346, 1140247794928970031],
    [16085986017581170966, 4865204628374520117, 9398945357209599985, 855001871779028785],
    [18373935659122007811, 9302854871160698995, 11195976190407733027, 594095238770146954],
    [17107352913746243369, 3312053159737910466, 14695730808192103120, 624188816477498259],
    [12696559451685956167, 17084904385753888616, 5274697003777267939, 1764035027201394692],
    [1985874752513688819, 13939750023335159835, 8435597319472031701, 2616597946562740816],
    [12513002984581451186, 18065796697305363310, 17617995772306442071, 2714081041938543091],
    [4941225923867085753, 15644120603909519542, 4267702068218628042, 126739206073033333],
    [9055235078781417518, 1098414224479079806, 14632423038345616122, 100854200955705028],
    [15195409712972710004, 5594243340075048609, 2175936612652625955, 3093974741829095908],
    [463383693452214587, 6067389321173542118, 6874210642442462097, 1585878248717463009],
    [3203369169666451190, 16084202975813520257, 9674410043700578176, 1381897712965121000],
    [14257153959638355767, 5343301092064812622, 12221940954141669274, 2359230449838230665],
    [1593818482440972625, 14028686982510536022, 12345166034876365197, 2944027334882008193],
    [12848097634434105040, 772919308615307729, 4247811971600774376, 1872533112399977476],
    [2150244263119046405, 13334171546716716474, 13170894743628636268, 1638931011965224746],
    [725764914579373405, 2953527792059844949, 1559397672094227435, 2289371322328526282],
    [9017293580644752125, 9031522225559033785, 3696299409137331349, 1932621596470892982],
    [16212069972839008389, 6459258889719813549, 176647144117559902, 2410343937551238687],
    [16236403649123876056, 8801115535492677875, 8314167204319880980, 1254025391308150035],
    [6264496435138764786, 9532219053157765205, 2456747949879230569, 251217169924561948],
    [14082592503534059359, 13132423009124188805, 14613490337579271496, 2121399251365601890],
    [3198440986287457355, 10823808384921601611, 7907826059116558992, 2415130661749263639],
    [1437603901252282320, 7817471146378362192, 11419775643960458143, 269594114209317071],
    [944341206419419719, 4859189292328616172, 4959889104716517448, 3127054169724534778],
    [4158290822873695766, 17325127769963095029, 15853736990885184892, 3062395171666506185],
    [6898425661573781151, 8275966520477363494, 7309682382104319438, 2069545653739066680],
    [15311358734134483542, 2830599610722827176, 13967351473225106493, 1613004927624033979],
    [3335915796189737326, 13213795028556413326, 11418560432345942150, 2808728312754860294],
    [1990254038651672199, 17319596640019768716, 2802200406498344091, 1074227841390931157],
    [7436849983097608479, 9567401327110122810, 383506048724459929, 622930071835379044],
    [9754592144117158967, 13601624286176278894, 14186517988930625828, 322752972363690522],
    [3364733574047732040, 17713218919116356606, 14326657079175192731, 2754603315730718653],
    [8324562727474557774, 3582723672214929629, 15620833938400598646, 2478423176577844962],
    [1547892926950237015, 17352806113989610417, 8687175789391600205, 3147719756852045908],
    [11965209943304698962, 15693110810620352081, 15370329106347837769, 1729994453360470040],
    [15658407315662535973, 8672999364032428030, 2192919932317725117, 556947926096037389],
    [3407818661843733098, 1909369785261220710, 4204862790836286156, 2181819226182706064],
    [6664937240913214104, 14122196332614301700, 3310255411265170056, 2162182925807309371],
    [6888986840064526562, 8175377708679590666, 5166284986058536426, 996807347837451111],
    [4081539535597638025, 16989860260469249790, 16197483707682103218, 689904352707782040],
    [11463447113480780215, 8688420580048442291, 12831129807685608044, 1458951597892831601],
    [12321004727405748349, 11542959590780748156, 10161030064382506319, 370983095788382491],
    [10457200617924122706, 166797117285679317, 17602622746621154194, 3287588252082865849],
    [16636213464644468549, 10247415205470277240, 2169593613952811288, 2524715230614613765],
    [9272621281858492191, 941701036521705595, 868921353966948563, 309435860736785565],
    [4516963243954098359, 12281711106084589625, 2569661297287549817, 1515417894334280220],
    [4352799792060230070, 1520876329277987817, 2753809092878290801, 1174708682506745088],
    [4952832670982794275, 5091879176838471757, 7302831303344428052, 2677217380075758785],
    [15042881188787258652, 15899540510441485734, 15554391311373662528, 1221547501468607243],
    [14734877396991602749, 1995077422222692302, 5679113893628204681, 1026940285378414258],
    [3833917719094144781, 9673448018877986797, 15711953409605154321, 1797886452654559003],
    [494365486508899410, 13414655044728576929, 3626930652070615605, 1611446621966373037],
    [2856753054627742287, 14173125276562699864, 1740178734922048719, 2467001292924410685],
    [15542639786278643414, 5844031099414621334, 1918961846935756516, 2379025306044630027],
    [12189000051803673476, 2588545957114651527, 11541247154560908311, 2023125873128499913],
    [915601605181512594, 475534188497123115, 14532713739857070465, 2013089396850067666],
    [5821091914439414148, 14050232671971249497, 8249016621628516874, 1935503243353523679],
    [282286694555207627, 5690079426176002861, 11531354535472850087, 1198204662145986742],
    [948346023702690199, 2162990108401158577, 17081793964095280972, 1917125391374774239],
    [15100999706680581300, 8241470641539345550, 17816539417761723820, 2745339756333864410],
    [15097130960382615704, 16262269044889861673, 16185567723447992454, 1384860250623759098],
    [3161269969573976794, 5818953398141826261, 11096606279659366375, 199626531502351972],
    [2841392969497052624, 1047325166879445185, 15658655640929558300, 2828278172473126372],
    [407050648673697007, 4489830499563515017, 12247499642640363654, 831636870425625584],
    [16965850708277389853, 4035767439777439124, 11249981539968524525, 2728464321320882572],
    [11370765014250115695, 2844952265207679114, 14399804799071529727, 2683443051713474545],
    [1059121475483661814, 15188642829539024386, 6109489915686469080, 2676037773200881868],
    [3090565524099199412, 2555779270871408910, 16780364333867449679, 3083209644513257544],
    [3519932114197310415, 9986474988087540488, 17999964976959435180, 3048433310729712706],
    [370100883992584155, 13147926461198785395, 10547790743636439856, 2814326915059597536],
    [12590706261555859154, 16760692823076944126, 2830007560942445836, 1816058364119507698],
    [12804009145277046213, 4686227841880976075, 9522731882371942874, 1608120271845884635],
    [1840102663091313260, 6126559491193822284, 15409260962163537887, 3441310879626118456],
    [729103529484153199, 6725110244645735990, 15637600628044376008, 1017440969902409049],
    [467573427722052940, 5698777400671056293, 6769765858813301594, 763416627456915757],
    [13289395146973639886, 12605426023272305200, 13942862540555283723, 3325879841267987975],
    [4089739946099713343, 14878503784442816456, 2498623706817350306, 944887473463494629],
    [14762320435377477956, 4137122877800905540, 16853823272670495459, 834729074909251181],
    [7850340719432088552, 12812123222411697864, 9799832211146375541, 1654426545793062135],
    [8373777790431315514, 15839007362005857405, 11970303740893114381, 1348417885427622624],
    [14446271494838736973, 17579835197605546308, 4165949113508967683, 2099302880320589254],
    [16393874254762924314, 10801704795957502762, 15725130855627213978, 943027152874619848],
    [7061659056651956027, 13214306519959958426, 3432185147281471073, 215290865724865919],
    [17998849323566087735, 14412259161397388728, 9536168008904123255, 1086277403821798452],
    [13002694618083765214, 16576339639662448815, 15106404487589139697, 217719419486247927],
    [16455177428143873816, 2002200999302276560, 1003137794525586519, 2583882487944447860],
    [8760203648253745865, 10674582501088307349, 14823117362070602466, 124138524806316567],
    [13516732538080000657, 18000930713772840902, 14474859342856104635, 2944087565636825139],
    [8344013937674203512, 16541351135185290132, 5529784564548825972, 214336833643063184],
    [11614911248691182767, 6601855433183949893, 13099794407601296804, 1994282741010967917],
    [1699919705766997632, 6601224967311471225, 9766945020217295237, 3140967311644042522],
    [8695908289484066973, 691831274281395523, 1143766372712590202, 297123189360734862],
    [10764003516018428128, 4246779166518248283, 17724880639728100247, 1420269231270811554],
    [17818808185055796974, 17892032708618721461, 10131948153665465610, 3216760824956327470],
    [12325329199892807152, 17362213767011496560, 16639228018251079846, 621333053560921297],
    [3968182750968353397, 6935955906881993231, 840969085567157068, 357210230043781175],
    [6881892554162114649, 13462868624664442858, 7183237958343353076, 2742149858235954469],
    [8913568224101495479, 7836498713916622111, 10010895390648373729, 1902036525396161862],
    [9772419626681438633, 12017588386448681856, 17086663082537253927, 57567192935061115],
    [11580612526189153452, 1016072696426244083, 13656752906150652930, 615101512455271486],
    [16686078836971701950, 12459758097817178225, 5043439708111132245, 3181162252133204831],
    [1658609215264381544, 17491383744447896994, 11215749114817715783, 1360053810737008476],
    [3069320162356222203, 12347467488919351210, 17334201438184914307, 388535974283073103],
    [18035527885695372405, 3358600727462109968, 12494126183430075591, 1715659018260401518],
    [8285424118852382561, 9067753394209237102, 11896728580509038789, 1346962393241902447],
    [9221956851980214283, 17139168483540364547, 14689281466674835201, 3288840979205982073],
    [3422070399954359500, 4310951814744334797, 3096812291339356992, 1405113403955435507],
    [10799232081703963391, 13339346257927488785, 17316046475692031302, 1375867689221625161],
    [10168991877859328909, 1303520251075769839, 1690419323659437930, 1443584162043079241],
    [5878300828293946631, 14192047430671571145, 9286076902671265244, 1211222959808889224],
    [5667583731061739662, 18352700094269791370, 16197395777722993345, 2848524866535895652],
    [3736677267299571502, 2265365969260212350, 13969818347672382059, 1986335995973367109],
    [5774456657218333947, 16129996771663688379, 13220774653201516094, 832762592274784447],
    [6087241149939026139, 4532504519639244575, 844325242922726168, 979957569027680311],
    [8028018326026619636, 3000638502036491749, 15434030191876061039, 2182411627012906207],
    [14986186602006993786, 11122284468859398252, 18392091005214125762, 3269652919585851037],
    [8667549060559775495, 9240275058339745957, 3676751134346059564, 1660244163015574852],
    [14376780196455417438, 4068838395058454084, 2019952594768198633, 2428463003643231552],
    [9854633644542281626, 8399468549067900141, 13385978588789925168, 2471865518709686855],
    [27666149193998575, 13451987554889262307, 2520701765254153217, 2761997785782012196],
    [16328195689647677234, 8245692611408355747, 13836890419073874011, 2112855908067646313],
    [14208213904151327523, 5831107781274711570, 13827905899911508815, 2952264623912524962],
    [15790976854265985692, 6201168267212552520, 5665449163124522953, 589516427794199602],
    [9751103715013035511, 11244781677863825821, 12815344852319738585, 574305173570205799],
    [13095808985941508506, 3144021814457766408, 13247312269253319430, 3337997514490589613],
    [4576773427385922373, 2066913599543294744, 6602350040934586233, 1498359843117385312],
    [15234706886929143724, 5038035970417655284, 15717915977099324904, 3447141468099207327],
    [18273753831610612728, 15784159296979112337, 3669262988413451034, 226738592858568650],
    [17987311371815837000, 13305863443025150054, 13284891121232895990, 645433646476279842],
    [17490842725084946719, 15694684755745556848, 9640571434295980353, 3010018328860250034],
    [11088312476895757100, 616745449242858313, 2386389205196014052, 1325408327181537653],
    [8987355069022766340, 5898752435555066687, 11309310160550211005, 2927594301621806366],
    [5257582237821837782, 5499735326070595228, 14411664512065975934, 1917379305232596710],
    [13912348112158416749, 271113204026307402, 8060852849459064139, 2015090512276474004],
    [6652160662659957698, 14614305716705048089, 14936506661017949584, 3411134495686811204],
    [16404301460316356318, 17722246802666214968, 2860542154348978314, 1227753749379305289],
    [3659888427048327047, 11897686694940735187, 11270759481589585296, 1752395688181914479],
    [7827087915782692794, 6661166766949702296, 16089276865069203698, 651303193484740594],
    [2945753252984053886, 2537313778097298082, 15389148806145056079, 3090570016287941254],
    [15961298406110254384, 13118911281793850039, 2268196645667463246, 479281610971247428],
    [4415863650235073644, 18388433417601983421, 3921969348416728998, 3416743186713799146],
    [11238242966717168861, 9747436426134311049, 15323567630350819850, 142362579561885366],
    [9073967905822448088, 5497533265067550049, 16607461558992321886, 3409590235690800980],
    [8862155943739972044, 6712660655438870673, 8737460401588607010, 1496345352760913849],
    [9837181014425230130, 4374773019213250505, 9137111998893329930, 1842570202165178054],
    [17959103983611983562, 15140507401012211573, 16223803389418787526, 2055096014324983635],
    [16972006085608366008, 17679416995534985921, 5402808674013285857, 342073914516197168],
    [6354603668495546195, 11521332041200713102, 6744895260800961366, 2597021310182471213],
    [7367577770873186148, 14435468731048878796, 11524566061517173219, 1520854771098116288],
    [12739547994335343165, 5295269781268953428, 7250923633147239564, 607620718758516742],
    [16996828408319844804, 3038006089022639803, 16032441773012715832, 1705326672690610666],
    [2308190533495524840, 3671710994788008854, 7365170312509161464, 1899168042076657781],
    [12873423308760429692, 16425504235085378373, 17939191007754118284, 3387749727623634135],
    [3829640825009409349, 8115531707880977738, 16980956499941532696, 1148233455437221935],
    [9701706361651985002, 1127559223094118736, 5592256854026803160, 3316819585816429519],
    [5871478798904555231, 4128540315343193280, 1501252442827930785, 2619298104672591687],
    [555351208472213742, 16578725738057246692, 6585978574335403895, 47330332695903414],
    [14614248861871906363, 732945714901843251, 10005808652050710879, 2915053061213503876],
    [2009740228940189272, 10040572734508470605, 15277730823364964623, 2422494379585371272],
    [17588605789516185194, 15659444711525177809, 4152063471002840557, 2983232364009941362],
    [5798629185729379563, 11508342083331326941, 9518466609061061250, 3228059547193693222],
    [574930949644484002, 3924606406551668253, 623209639684219005, 358341443678145202],
    [16545848910614710024, 14765701007481124084, 16565642087630597728, 3315977268068958110],
    [577414654686845754, 17035340898153236049, 1077133066487956288, 608001295902094188],
    [17024094157804816258, 8143659303750314716, 16901245420709990579, 2667031907194201533],
    [2996763447338457837, 14712679934091766682, 6285530901643477408, 388215040023108727],
    [14640142334072725020, 5053691047798303228, 1343420152738056717, 838804562851991060],
    [7839021809657740422, 1183818131863356313, 12240851407034661806, 3273891303562413791],
    [8307191075093034631, 4363543485025496795, 4132129861141495040, 3428818777888253489],
    [10210358464953952824, 5300061190184766085, 13492942909446853143, 1478934354122157489],
    [7924322716381666434, 16669273743294903693, 11095116277232950193, 2837897854580658728],
    [4691633262843028072, 6638851839958719473, 4483309732846443657, 2626487696181068128],
    [11613363755572551809, 15652864846711271340, 9974624271857637091, 1810887519144787143],
    [16329191338468707712, 10583201080078463507, 9013062056546131267, 758223448512366772],
    [4062518475291578670, 7069502798865549896, 7338187534352082398, 124623351764587021],
    [10653483767327283609, 7921361518497895243, 12685242493734405831, 2148623881935725339],
    [11299456600278220942, 15238728230293570259, 3944838709973537968, 2488658720706996863],
    [10297252286367785333, 2203628582841599254, 12950411720851563324, 3084996205388091667],
    [7601700238895612080, 1524931915925201613, 17990354930202915193, 3351448923452268602],
    [3389150302063162555, 10503445803379232380, 15615759600819947222, 3255450170868082169],
    [8173121851933462386, 13954898112032468782, 8756047494652264344, 770266258273621817],
    [14745075224182069656, 3457106211995110684, 883616262354835924, 2835149473712273645],
    [4216013093410320628, 5346050174380276593, 13665174844912224078, 449785674951825127],
    [15016158865114556200, 4847201135699166350, 4413998048069269790, 2553875336174847605],
    [6052428171577704565, 12135711701629778283, 10644224758057161354, 2791664466222749926],
    [1997123187598764138, 4646058818692067924, 1251345765898736587, 615147176155990249],
    [5110019242378445638, 18058091269089650705, 6298599411586278410, 211544606015385466],
    [12851321661448817409, 6371408951122081368, 5259494271908207115, 2688242569499613475],
    [275743409590074236, 8588397088125835739, 13047170706393746242, 212826013527037159],
    [3476138541713576096, 2914363306120573246, 16927214201051023036, 2683874685968437934],
    [2480081177643696073, 12319533270721871529, 17462555712648805344, 304378587033120003],
    [14526895948886327340, 18027479872413576709, 5324349992591729451, 1400920981216828887],
    [15969381832713705307, 17525072807269596732, 4878895078258233593, 593477968744981373],
    [17446185251918171817, 5504847754095265999, 7314641143602076308, 2795780267071524448],
    [4973361066362623716, 2358096668149254101, 10691568164405939616, 1047501361728625434],
    [27663062126274565, 11127621874136825554, 13707114732090708138, 3103334439197498645],
    [14136860963822109366, 10549776847882319803, 15733942835766320358, 2424453380178735149],
    [5381113892974823414, 1497447513293364663, 5771080116808985135, 1848844063655041942],
    [13217823768191062229, 13779572951899899761, 7625833321297506053, 3098975321314127765],
    [15442472196837482788, 5364266527826859080, 1727488910728922797, 398028180473427302],
    [4501071030211901834, 542452881708749434, 13581216368191184048, 289165929953746323],
    [7305367685844076858, 3933699129147912071, 12136339274607169530, 3270887358097609886],
    [13958211245114238111, 14546273134040118021, 4077259974699538499, 3362450463702154394],
    [17321450015283480698, 12590084131776332980, 3133636777322849098, 1360329259292088425],
    [11858525699447466255, 4446424485978544691, 4388697916291456377, 984530226529104940],
    [10000079085668247632, 10619727308236006337, 15736312217709927625, 212607187948962695],
    [15728506364023922196, 663021766478910371, 10011118563972963444, 2318759223289093630],
    [8541738952706169724, 4540813105004969525, 11402711805229103649, 519934039269686272],
    [12244650157255447802, 16783007942069508369, 10708013529745865879, 213889484280731289],
    [2645321829414551537, 1252120000321006184, 10144142610402719152, 3037599103600222875],
    [18017885816618359358, 17715161994261476114, 15160115278695203743, 1824659958456849365],
    [9611449077636526117, 2530211780204136780, 2996694903078799853, 600978124480643939],
    [16425212393897966061, 15346970977870070484, 15641729504992857752, 3174811751399024946],
    [14231816494131789472, 9188649835292570012, 1574581905779739734, 2814932554555637563],
    [5935388228345740759, 12752856127349122939, 15585900826021182912, 3263847769422984286],
    [13166157552290326607, 11162871517948800633, 5720305961494556471, 2542565660408831498],
    [8675555125372577254, 8584059147997362664, 13410509364774719884, 2928792926283613833],
    [15372103919007102443, 14332773381286772990, 11126783267030193661, 1881082289706599240],
    [10304987405380561188, 613163326992028062, 82177151549909149, 3446824762781302414],
    [9197377228934924339, 10833447711971957012, 205186631765667713, 951777827866730124],
    [4046038609249151501, 6811815449488257051, 3998590295361643881, 2971982971935578690],
    [802627173535894968, 14966004800098859902, 15543725321438491476, 2415874856693737660],
    [16277056650197900916, 15916930512473164867, 2819707321884265909, 1966229078913742970],
    [12179367387794592298, 1082398346936150831, 5974051032756822961, 76661053371569580],
    [8278833653889299212, 6698297105621010317, 12407645943969904473, 516637468990812738],
    [9176808827980403317, 9471516124200961689, 549049248492552076, 2177941503495274593],
    [18076149387536072042, 11801004656194421692, 3222964619216324502, 2663048825952316222],
    [1265359081516088636, 13551787584134777017, 17455822800038801232, 1512808000885601325],
    [7715345017512235375, 9378492618151810093, 8891957362277816066, 2625947701674981063],
    [12212396857149709547, 15111433682671365801, 2562375725920156896, 418600364761538104],
    [16237743594131728934, 18422794985691474010, 902772989523290463, 3270292125161922845],
    [15024865146878522784, 16892778474832636634, 1326152835865646085, 1865741661348124003],
    [6834425045559871562, 6432609187593056982, 16287068401633135732, 2370089627554384815],
    [10502143762464057150, 3981302264492235888, 16802329449907975138, 2760223066450215338],
    [16263836029223495172, 17593477422526739050, 3870132148282376311, 1313008941312308539],
    [18193438021423332917, 12531551692765802405, 1437620635234862429, 977359511522815001],
    [4293560904501669250, 17001995155758551639, 9955790510209526, 1106389382913717262],
    [5552074399429118099, 10843586903145203139, 8344468887176255470, 3232920655317250887],
    [7650873635505690472, 6612066590712535227, 5603717453942125177, 2021144465123074278],
    [10192280069615923830, 13282877633340888550, 14659317681649090896, 2783121629714783472],
    [2704554347743318472, 14390727469007930249, 13377612770952912807, 699258268151145845],
    [9723882731732721084, 4591025707751172506, 9293207678757101887, 1809117292506813867],
    [5456631118313051952, 9617411685529252269, 14061628105109112412, 813053022394327947],
    [16005151177913529830, 13478379902945007403, 10790654499854942337, 2835342186958044316],
    [16599548004969153135, 11484430493347020237, 16235211874008064436, 2296278623188062679],
    [6403031367505755659, 18413156369027438611, 8507315706555282217, 3004678883874086207],
    [11704646922979993541, 18310767207274871892, 17022498567476338995, 331152990332393489],
    [3662562929019380075, 443717120238742919, 1978626380253190405, 1847104396159532968],
    [9664685384377300839, 346779175775074586, 819144536106605356, 1311460738278155048],
    [5266900406604083751, 15158154992045472287, 10795243930036328282, 2586344211149043000],
    [17135515264995648386, 10644524604436128860, 8221714294629452334, 1975953521322218178],
    [11887186204783315719, 17543969514373294845, 839588689032015903, 1634541925025163596],
    [3222144743068279043, 16791882972713959025, 10936176715833901298, 2016163208991225069],
    [9819022174107624022, 565499345448022259, 12594245822990319138, 3007085566748433002],
    [5229353124572967909, 7241467411690376679, 11389883435348241603, 2071169220673591428],
    [9316076684012954660, 1329854374318127537, 7165076163448714164, 38178687507224373],
    [17962978150927875267, 9194778546523511451, 15664748983353976628, 2238879540056211221],
    [12655464008359540876, 9002436914129696514, 16263672063983071950, 574560470162592714],
    [6826655223886594713, 13777093273188459162, 13125573890212108783, 784715446239451290],
    [16990982484332678603, 6825350663472880280, 2080821020206642299, 1564552881925203124],
    [8563306579353844499, 17044742967818278989, 10148522127506295663, 1377217638329012196],
    [715079069185511149, 15607299606397900361, 7020165328359263039, 2005633245698014657],
    [13323064770163573707, 3187215729822138516, 13794943481067190054, 2187153920675527146],
    [2206499066129939661, 10702068064452398045, 18114621283551325422, 2434351606313216548],
    [5038599643594898115, 16283072456507963503, 9911168222489823803, 3383197124317589140],
    [13817537085647017460, 14017242475208653565, 11040204025567196889, 2898370764274153012],
    [8786831356456682176, 6490853002486576874, 5598582557877142737, 2840316675456472862],
    [2077556076926755800, 7274974249931564199, 2424665852270153359, 2651071890478681496],
    [16297896100950749141, 17754992100344564695, 5614880076917758196, 1146433771055704286],
    [15907032994301289862, 8680506649076385367, 3311069393965070615, 3390012910572033361],
    [12046382801629938641, 9223720334842563689, 5216880923705137337, 1731408581363425962],
    [558101868750374659, 10901649215144583940, 2143199482430493316, 405518279754887267],
    [1898175395749008347, 5433116702632317038, 5721090937505709722, 2956795275408742932],
    [10148847297631525903, 14298002579706652874, 10685371164479767342, 1785783517566958212],
    [15976989346376715921, 10431292090179264263, 16020255897807842555, 2231540314171358548],
    [16926042244243440325, 4797570448378962591, 10975570729277315777, 3077248415924354468],
    [9272532033233659884, 14640139051272039110, 486004297383919164, 2674505357088456970],
    [667562640411748423, 17656207208130591980, 11894536947009541757, 153153407239427717],
    [7342528179744302585, 8261927155607775264, 6066363681346802252, 3150592825706530259],
    [15425736699765187400, 15432182359362040590, 9634289029898541951, 1510375236742045781],
    [17717240512433307588, 12382741681842488277, 14400141799142496186, 1244533253857694255],
    [14786420058107810118, 2486012305902857832, 563192991085664383, 2358767603593280725],
    [2555353005849291871, 14520680304467434087, 3655040191550958158, 1749650612748300173],
    [2725680987478640911, 9881257836992718155, 8611261798327268196, 1442513061023746368],
    [12706355545358441999, 709067032690044989, 13523873994021492664, 2674562255190844668],
    [1170562556926537047, 9387873542876949412, 9778877697885783696, 694781280003671289],
    [10356317472489279863, 198164014828633208, 15411853293173508089, 3377174753580593693],
    [12221873622886052361, 570107660347820323, 64926921374740751, 1155790237333752516],
    [17472520561191636496, 15649998927257283378, 2282951208989053242, 1551258874060752812],
    [8322170973091020713, 260542673026651424, 11921880802464974500, 2263238434757826355],
    [3928168643381797506, 12777096639037247663, 18036450441334974425, 3032710467517778610],
    [5940091364259424089, 15199513830590322606, 12188122968938938315, 454856190466218122],
    [11499539091985520111, 5433376839856007843, 18333513302983562070, 2054567187075298001],
    [97092747339398234, 393629131411360715, 5346600750251632941, 3334397277834653640],
    [14199978655750209874, 5872270197926136354, 2392397288077736605, 29327745676733824],
    [10803110222368162441, 6602100163539287001, 15973295552626344104, 2494487103842483529],
    [12049450079672973458, 1499610372910350511, 3701079143531548714, 2794957912140316168],
    [10238845026200335060, 16565513183515384757, 10313477431117897974, 1494158513149646161],
    [13622503974362166172, 1338055962086679151, 13017864921982205493, 2521460244501781272],
    [9292400982397267716, 12112715294563162141, 5406635853293718965, 2146550177512915220],
    [6864062275870400338, 5439838338159924322, 11840022879670841065, 294192532230367378],
    [15372699068611513910, 2746975454290987176, 15362625370884062061, 1427217617950375214],
    [6073776033568174558, 9361861863949414124, 846210010031077789, 2663028392278614045],
    [11579813033612237292, 18000025437863265415, 14714710311223639453, 2801350684497688746],
    [8234669532173009293, 5076197827002726986, 14468473905150123241, 2463329303207606064],
    [16567596445862670215, 11265993697245170922, 4845702658682774189, 1859206431495849374],
    [4960829401210427534, 1161859362188049451, 14657340211865425923, 937217673847654082],
    [2804559793038330035, 8967238133004860680, 12509522929718229671, 3321281687673597775],
    [3506609168511945428, 1571298000456384868, 1161001239080083079, 3328384740201884130],
    [4631534071351995996, 3130042000857527521, 7798172355338194029, 1759021899207628979],
    [13714192687864479676, 4086107550219853749, 904049295177050135, 2708897313415884350],
    [5034964042796309652, 7208172936747808448, 6551224483724469742, 17642268484510833],
    [9168130404202433068, 14391182570202049213, 16655240790953373603, 2168452813240725729],
    [6135897820382221760, 10932299511474766650, 16750444163002627052, 3244009616148958577],
    [16780958480789215870, 13241066928726231607, 1958829929889864308, 658102400475586394],
    [7544644261931180095, 9694803395650310107, 11828977855173880585, 2517050865884954807],
    [9965140703737037505, 8627784905033058222, 14935081094439092636, 1977103650135658395],
    [17777856568654429064, 69115876548088110, 13895217575088440625, 1885558710468924443],
    [8026667978596038669, 18025802942949487283, 4393523229495752677, 529912305905988419],
    [2373712463551920170, 40419486155625829, 8501399504431122227, 508775148770333695],
    [17850544268345990649, 1356492181552164984, 11920357435421247499, 564543352231026191],
    [17732247719921346282, 110429594433447336, 18266614557000869194, 72300904609722663],
    [12665794398351579190, 10635176509303480379, 4309865748825378946, 1606793181056336615],
    [1602564693740289452, 13461778573439634740, 11654349746564054302, 3017070625289219887],
    [6775550742932848520, 7232556459338105813, 15293727634322071006, 2870359532045721037],
    [2191676411163154012, 14188980846783184924, 3281642779824646717, 879018984202020912],
    [5147910321158089171, 6963429670419143582, 899944629434382653, 931354045636885758],
    [17823736764521457230, 5567840710469921409, 4762264076921975797, 506135577383394948],
    [3742808427586199014, 9215074577166815191, 12158014354339839913, 1256313198643690184],
    [11771559823122742977, 11725822275091475159, 15005891642203852019, 3066611515293784144],
    [2275885222509263121, 2658410061976671521, 6630994101438701983, 2679334614567922470],
    [14452144478598879464, 15258512927861436852, 6556841453139703520, 2588829211575860728],
    [13288896296502296830, 13519727335076679735, 16443519493734049416, 999505619927415346],
    [3258586430183489165, 6513823038984435880, 15779294177455016929, 2538285663097826546],
    [12932926348027407177, 8514996673744468188, 14742974629169415338, 2808920225655275626],
    [12347946810488985688, 18126665109205789080, 914282573409017720, 539684789278612774],
    [9307649253991068192, 2905124209976625822, 5113927732038103075, 2512360699419480521],
    [7606065258693432245, 3043771768029574017, 17762971383133858470, 3349626741112857379],
    [8976981430838504933, 3084328002413046650, 10752093861878190199, 1868446705115834274],
    [8827872760601147833, 4089516512360622309, 2706367354646141825, 348023135971428985],
    [9918589918186487170, 2753290213154606904, 9700807425053021240, 3304839196176196147],
    [3544286642378843821, 9604265384376166547, 16415649860362341863, 856785452797530508],
    [4878682579464919950, 10778373429061253107, 10419692577680640222, 2880772293715695269],
    [14883155388835490337, 7660014151827835463, 2589246578787300225, 1667004843424721762],
    [10485074420627133608, 11231105035140347302, 607684178599359814, 38890595478823748],
    [6350966913586422618, 12596422782786001948, 1980714960281370335, 2855570347179357473],
    [5302801585541741638, 9334132306806162880, 11062621426954455228, 495100050319256472],
    [11317202534840451224, 6019764220341142411, 6213695151964069976, 902616973878655896],
    [18104240150867935764, 10081453304936785108, 14545202406243108775, 154103394113049024],
    [8091082856067597007, 14989440673909469261, 16262403639626296808, 3093775120579470188],
    [17196814124969570959, 14889605650480971044, 7998952524498276490, 1099546268937149061],
    [9915191052169667343, 12594816010492116385, 2445084432947846999, 2185986527551798803],
    [6591555586579023621, 12111489287731424472, 14258936699048990026, 443561634051967224],
    [7426387145426791003, 4038644305682551116, 4197907320832298186, 1577857696048729256],
    [799619197229694178, 16501438978644180303, 7091334841749902859, 921216165744037787],
    [5802599454348156555, 16851946975710992407, 12953597727726236953, 1729194632653474785],
    [16062296154908162534, 721254555189727103, 7381847896885463466, 1141061449608519303],
    [893739939826528105, 10638023624623270781, 18208039665865191294, 2319710769210649225],
    [8456613849313255892, 2169755747834190015, 12173007617275162466, 1835553320805049434],
    [14618207698175560088, 17922238372432825237, 13452517108661373056, 620202089506163163],
    [15353062850321088866, 2722716492429541163, 8667916954799316926, 3183438995602932885],
    [7909271452390794359, 12944245046300690101, 3488186216606598062, 3140741450525589529],
    [1816162163787658485, 333139484213668197, 6626143575809120839, 1697699458193663712],
    [4197096931400891070, 11536905259249700002, 900000357823757163, 2472469665416042475],
    [17760641771441987284, 9020795303588943198, 14810913235611952793, 68378757716634850],
    [995781693979615798, 12800305588932104595, 8384143398912930446, 2699194671310359187],
    [9162589584059986287, 1965387952315885466, 364989251829032492, 1127792594716573075],
    [14622967807748399917, 4561779121511535809, 3070533965386331084, 921963924097010617],
    [14318786544165781509, 14555911226851084199, 6504053097259470017, 1314988225872363469],
    [18190830066322282849, 3029094381716487353, 766155626608100897, 2456187414414640619],
    [2698292005066866234, 4768360826388361270, 8708966900101009037, 1433136053592505769],
    [8913958921745102851, 1211133257852485155, 107398366157874840, 1422782893004039972],
    [2624505532233875228, 1552175927697057520, 3725818710255277418, 1435849026411326064],
    [8112573807588553287, 7805883031253776673, 14387940292180444386, 3457082890330222481],
    [10042554985751975998, 1224228834033945620, 186698906867442698, 3057370570898719914],
    [9678782878642274872, 987698603130135759, 14588526239320112144, 2871136154085890622],
    [3119482894658991229, 461957760427518778, 13554937489569671692, 2207050396109831137],
    [983351883926888436, 6451706951891363099, 6341998003920461870, 2119404891936958599],
    [13105759929006020581, 3342936913015902524, 17292064486203182477, 1985563136412271054],
    [2382260878105180989, 1630171151453192137, 6923376875542412787, 3260839196196725674],
    [7923320963099283595, 211683229560694007, 105567340194908812, 2657619617129485153],
    [6053254318775648333, 12397456178866244416, 14617557948459927827, 2596592278107493772],
    [15082096257356328158, 12717060698662334087, 7684123570446517134, 1025816642553881313],
    [10443848006687343592, 7841038406626714944, 1855420743339121200, 2633617301657806616],
    [13019430682531144173, 1307971122034593138, 11419429386401709557, 2774178745499950457],
    [12502869881272974009, 12853660623054765300, 10457005910627005486, 3159582172700391380],
    [13968011204481146644, 1129186964027585381, 12527381691140933157, 2071848465666560178],
    [14239275107685945020, 12705851650919200075, 6889568234612109052, 2458732045465872665],
    [11474086194157529863, 10213910615103222600, 5031146393216703980, 1795763923808154127],
    [13711110004233165387, 16540137009740368017, 5400870080641314024, 3401215824596759159],
    [5271808335155952414, 11359644512603412654, 5706050698199646616, 384699067374061035],
    [11757012680677466756, 5846668706727620642, 4088258381987369840, 2216052725708580933],
    [16315452228880627791, 521445222465788807, 1894741712330745906, 1604867640983190201],
    [696187471195312976, 15984249149071537188, 8376366754568567739, 2497117073446745642],
    [4648572097470589751, 1894280351529304933, 12660652777428855990, 1916600356694312282],
    [6903011292502104745, 11927826650371398113, 4118493911112270001, 1060708054471511820],
    [10410024420893435477, 11852402974287219450, 16048618655430510852, 1029264983922683733],
    [2784964571090799462, 1971389803885454054, 17971561464950582689, 1720298940675327743],
    [12926193118535396001, 8032329903615359937, 5919603748155112538, 1008732655425760121],
    [16339852437123318544, 16711728421966113745, 2568234368800615335, 3428520657384991583],
    [15565624692727443772, 11370006853679227681, 11599167924102892472, 1823007278698849258],
    [2597661896225567695, 7367152409442465537, 16601050728498221548, 1650597873283513531],
    [10280102296384106210, 17039614165409150140, 6793655455999555743, 1292265007774637937],
    [13246573318953665845, 2097934423119114381, 13818768401173151786, 609925876087662849],
    [3566231433179458677, 12134777001044029797, 11879843673886426458, 3348658724131071862],
    [9872059900586187374, 11836825698013245170, 14081307860869009337, 1870935074916552115],
    [3881152259475899646, 8848705593362905767, 7438184830517708949, 720251632214931535],
    [2409778980671408177, 15355351532485591863, 8806229566705696861, 386805699293537774],
    [3068895054196807720, 17995103652595355330, 13157565211708551254, 425832287643995451],
    [16156871274148997391, 8442696600114723735, 18070527774628944176, 897098786884600434],
    [4394690781955887290, 3809522480138714561, 16363219799496572792, 1616862328688252077],
    [1098629843567738702, 25160524043743204, 3095349112791341768, 2914210236684139137],
    [1554813274715572984, 2484658829003483051, 6805483055891296510, 3416045189210918409],
    [6438909455072867107, 4348970995185717025, 3393890651460158356, 600344085084117114],
    [117326108189125341, 13335187345106126440, 6566534871715994508, 2178995837842256840],
    [476799418849928970, 13555127756175981838, 7468971945336619413, 2211957325414238777],
    [16422992482188253630, 13559605637535572724, 81958123589033587, 19626270175203672],
    [17429456561100405354, 15457081321323729477, 10715781501741310513, 178718896978857619],
    [5616068083159266539, 7088186523385153661, 6267973693654858568, 3336146571822654693],
    [14391738556052877661, 3351315959242097955, 10819794276450821223, 393639123787717027],
    [199640097937667293, 16951430656471498901, 708156101060086564, 1721575600515404498],
    [3872220638258216515, 5390514784083892419, 18118147940789894972, 106410793382096271],
    [11236765843945837235, 2338364673821931169, 7376395859306182271, 2933894713956027188],
    [3946263779421520726, 16189576752860152836, 1094306221573185696, 2256957534191035079],
    [6254416550793095694, 12065791723764112190, 3720068691930334422, 2968518946153285725],
    [382722323696192734, 17923982136456373634, 15518057872026694011, 24346055816689991],
    [6179808872146004182, 3443451085052057667, 1091597071115187324, 2204154362474743125],
    [591930442443498393, 5257615547987756874, 11037371462176627111, 636271720535160103],
    [12639088818501662370, 579170741523076931, 975541331305637493, 2482394740327272692],
    [2703932587013993287, 2154620529178804272, 17187781344644714452, 2407199614836169698],
    [9504768339969548768, 7327157111420737056, 10161411287027315003, 813178646448907503],
    [1704725592881940649, 3865441487247587995, 5912117591468286761, 1757958856118777412],
    [9459923155825245217, 17081573254317680803, 6373082383777837721, 3443367890667502712],
    [1429431556460817263, 2616537794181182293, 16750347372798865270, 1897327274477059596],
    [13196972724674877986, 12885149298859652407, 3405126947689867215, 1540527448468882069],
    [14944889994045952530, 4806034896995353654, 9143468911143639184, 1394281104644865859],
    [9537883584623772543, 9095144602577064131, 2935325370497559036, 3295392363422053376],
    [4523617413248078585, 12660811206054587446, 6444276763981969080, 3221098374490409689],
    [17149686103071006884, 17016814295160082616, 3291389779750802061, 2913419478483938617],
    [11487486161351906071, 2477603976070788845, 2122663512359110895, 1616359240974539008],
    [16930366170056642401, 8693495037658785737, 8789389521987493096, 2145330693763071608],
    [5869514183245501788, 4744001985503775668, 4469343821658370028, 2240250482568321366],
    [11495246387437169429, 12536166616651920928, 8052159393478390047, 2945077963461729456],
    [13444762648182296502, 7041104639380930738, 422245866830067236, 1777343572664300833],
    [6322046557747853723, 13681741489133891203, 2398103744045423235, 33402618925715577],
    [2808031462072383710, 13631890619901918602, 4390793184507140811, 2744417833297643269],
    [13640882160799274628, 13826539374248061980, 11767125246212927189, 2492326970447184932],
    [9461589199233317971, 1142263363921395876, 3748737942682022588, 587792869476178320],
    [8481286296855758715, 1693529869687675137, 12029691786103255084, 536490889962613213],
    [4920575837043325301, 2489653716427734241, 329429872547614532, 992069400043108881],
    [4313200691729817505, 4282906869703074982, 15778987924818225826, 1172186018462553017],
    [15345891467945654893, 3867014859245537740, 6544332666179098721, 1487472991540947280],
    [14507853539352007658, 5544828906900945802, 4927495602091536046, 2335278840114094672],
    [7029133902335862086, 4592914295985775880, 471869468580136130, 270962790436696923],
    [17538260852303490582, 17379532802567591582, 9290863634015243642, 1341751056055413182],
    [8020089758495392088, 14406137712554159906, 15973293606649919767, 609306385831714188],
    [14840217095542352558, 9257294275206954561, 6015799113528881033, 1198162776567896624],
    [8821551820927401003, 17118889602510849249, 2458757982524350652, 840878026586061792],
    [423681465565856690, 12505880622437525040, 6314762058836724097, 2324421931386574912],
    [18400984629131561538, 12143802040470890047, 12113847916775282339, 2288556128529881689],
    [2149109936479176567, 12632494227184979611, 14716550656962185950, 401425749729011208],
    [5842377851745384923, 2575092191492760443, 15592792100033735141, 2817995356729886433],
    [14300316099252299090, 11316437533194542113, 2490508111113931302, 2641994582893817951],
    [8198265461767770669, 17222443192590757234, 13105491890294860855, 1947532565177006933],
    [12028605294609681203, 9557402890629176083, 7647275937091759385, 2176851410734298828],
    [6845239842344780313, 257934448267221984, 13737825285853805065, 3078522170768255463],
    [12299694883493967462, 6835213166117307143, 3917787577448271324, 2443618388449531090],
    [10880088138996362510, 1578291237384558021, 10759731445612977185, 1764566454723654295],
    [17251867507657044882, 15068375376608099817, 12159834410614334457, 1788772962343760790],
    [6547140530132431347, 6636829296379413070, 14110957344627256184, 758727309671882371],
    [836247177599233996, 10771028478503903754, 13602943462912597061, 2912593535212454536],
    [13169689525876440850, 9917397314878791393, 403884544422869460, 2039671962440489810],
    [13855625559155747517, 15390022280426872997, 10644398973516118981, 2815900379107188902],
    [10036812317736338942, 13100999690685781066, 7671035059899275521, 1577165619657543387],
    [6268216597894018609, 10509301830233207465, 17053055159630948336, 586989203767460391],
    [11450381281227015642, 6810346924851226400, 12453458541704533982, 867173391814298161],
    [15058298508333922042, 12405486710207695387, 8138628854390102255, 1808621426456265923],
    [4956070612760402497, 17623559151472184313, 11461283454738171250, 1567083002667922443],
    [3666958996342846389, 2318565848962116848, 12839180896431798651, 1309987783776311305],
    [18102666697454920809, 7647663123217252673, 7299896866439765887, 1299096081683677336],
    [10160322165579122808, 1999299273258127606, 17302675634000015711, 3291493305901079757],
    [3461559254994553713, 9264726923733682682, 3989763752333015565, 1455593751335809451],
    [1111791571522786348, 6603763170510413983, 17857980655345955894, 694988478712038996],
    [12402746641956106587, 6695126419343296071, 10213147788120760016, 328358078057031762],
    [8289567966431479798, 12176128190929587849, 18379357245180882634, 2327137188658280263],
    [15044732851677238030, 11240790778642562533, 8371716173311688759, 34306678713413061],
    [2304405773171516282, 5660265790539089949, 3484298613789327169, 2874579330228239138],
    [3838037586359098714, 5145117792904450490, 5021022559885686311, 1537728501551285582],
    [141855476178904414, 17140063748180889425, 5402380732015242314, 3344561839889957604],
    [6289602781623270565, 603601919977935428, 12795620304451704210, 3306099302010454055],
    [9705560606905292274, 17565373170207392458, 11511999084953356008, 3322716373058547232],
    [14274012509273510760, 17310984786976687319, 8182604277245181066, 1534389942454422373],
    [14775081822666847165, 11935951900107415749, 8911565870330719922, 3018976601629892062],
    [4035033462945924080, 5786231448198629337, 15535443127979214465, 228894145309184058],
    [3237073343415081530, 6757650222190987472, 1179443769863312854, 2890712934310260595],
    [3738550490196902031, 13476507247695708561, 4792221829781915626, 1116460253774265009],
    [6629665090184377779, 5138641738438903975, 5607888232607482261, 2876182075370001786],
    [901384451881878059, 15246281788819280296, 15759853972739976650, 392005943950245373],
    [7978949502183222270, 9893012150221179381, 8693094959948645837, 178588717308719140],
    [1664558812333872406, 4851866144027328985, 5289096332349261106, 2148466077358587151],
    [14040181210896372290, 13204243756531071493, 9700180600906216421, 2307606929022154080],
    [613366017847684278, 18392539816612936000, 4862478213326683812, 2817325068929932436],
    [8544272472521490318, 10191117095077605377, 11136312168624110407, 1972716081242986509],
    [5405594875702820362, 10790920899813540216, 11409238778696425444, 827094649055027578],
    [2553201372643380169, 6456888553591263088, 12358102873760872771, 2930850555430155077],
    [7795861947490417556, 14166281746664921100, 3428135938416006421, 3426522826147320061],
    [3381279351716540862, 10746597433565152265, 15200695679029687559, 3044136541704433431],
    [13369159122267775216, 8587527162063758962, 12836500819954448079, 581416340199908068],
    [7010506858912231941, 14428849206212776208, 2826468867708169356, 1894799849752575650],
    [3282443314623992254, 2666208772490470961, 10080084936909272620, 2118269537692646280],
    [2595954976238247823, 6216191076310657710, 13359699903787763552, 2946193713949156582],
    [7138720511377844840, 8678118235303098310, 9760032187384370821, 1221861136382815539],
    [371312643306013400, 4348610161396044232, 7372477583989173770, 3085923251941609592],
    [4368538721263135873, 925762416559672625, 16446358012686184079, 212192728806352073],
    [5167863119358043726, 8426643867399244311, 14643401095315632256, 2308211800383520357],
    [2249003809888964726, 5011447387945468508, 17038447948674346909, 1077070729918921311],
];

const M_T9: [[u64; 4]; 81] = [
    [12260085014100487254, 15115852496701773162, 14918758887244068681, 112863918757284477],
    [212627258154859181, 9941406968500905213, 15689897025534483386, 2273537833634474802],
    [4139066349783842292, 6646296118586528850, 4768592091888506564, 2525509219902385984],
    [13275196821702353716, 3924364462601223371, 16544301244798973336, 2333889771329696090],
    [14859162044754297967, 494666766479801700, 11319720503231673470, 889265636650563258],
    [6656801688331807632, 11235623431567322139, 17600703193002326225, 2838438575480021984],
    [4869460402909364901, 6558544306104037705, 8424099473773029610, 2647542704999703089],
    [10019494238491625102, 5433848205853062365, 6103700914641928781, 1733826587084767459],
    [2789741066657820347, 2000351555797916587, 5990167486166164287, 1185130391945779656],
    [14604775297975993369, 11333041108180549894, 4368129399032342086, 434541907318180215],
    [18294724710747151737, 16714724681736668022, 17531844691882409533, 2707041657238828501],
    [13989884495871779905, 15907254440357433650, 5070011504557080197, 665687298071522483],
    [1144148549877124806, 318685301192417182, 9068147522069265273, 401126969663586598],
    [2940511423187860440, 3710362899429185222, 15673773457594603349, 3212338219223160039],
    [13241678661736665230, 11623257850286707321, 3347705666949192880, 3181557296524815683],
    [1206411094816182673, 508420081562384361, 13065410396642280725, 2486223202235162374],
    [11002189009779021479, 14736713925489155043, 8483915817979050437, 1953359451293855382],
    [14564664435037463764, 9529957679984527877, 16325016653844097698, 1657661488995581114],
    [7951398568912335884, 8869889641676338874, 7908872753950712538, 2136154073861940357],
    [12620429430556986923, 5315028616013574827, 8759846306086720903, 3149236977874173893],
    [13919400371396645727, 5906186376145044328, 7719143280340493866, 2668411370749341238],
    [4074771145058991633, 4328744037481570619, 7240672733911600015, 1964538780799688901],
    [723933641554629106, 12273674172600272882, 17165812576361957987, 2512199483780732066],
    [10156595408889687172, 13903794940656720998, 11068829831367458409, 832736587020437255],
    [12001192427075678964, 14773276099687617068, 7244381738219993810, 146416836477816494],
    [13962747142309686913, 3597772845329568066, 12519615695732795415, 2845059109816345910],
    [1057908941480297537, 8034323442509105705, 6816716784129085671, 3473766934070763712],
    [17013839005187141116, 10306047814235021221, 6341551380358509200, 2518425537496777190],
    [7814764238085776783, 11717404640892433013, 1473878543557880397, 2043762831195192648],
    [14503315042416009405, 9425097410919368559, 15262305795779391410, 3078471832307640860],
    [14427939661590488226, 5613788301320464843, 5575330075073640834, 2802524660993500226],
    [16821378841011070166, 6071149294907532, 2436739437961746697, 841565647215087523],
    [10817741983298643189, 15879691037545572910, 4207688021718599990, 2551038900218189318],
    [10876499511372734195, 15532190071049058889, 2120318911993323039, 147899719125705872],
    [4793506377511301550, 7527586725053773301, 16690433456368553987, 2127468591815148132],
    [15668683898831043406, 4403681684765559080, 6927969149544677259, 1398756311951539481],
    [298776373186473812, 11144794132546739112, 16782119216958255089, 531289420655606669],
    [107779541586224633, 2188817057285529712, 5985187415402316856, 1681255778740181877],
    [11421195526648282702, 16073598818484365593, 11572295587436462522, 3010039075799045496],
    [10340459013552791056, 8915174067938836394, 14261895264569898096, 3219940486337077708],
    [8011759723686157154, 15051507490009599348, 12393330635546438325, 2664204170478106804],
    [5984391267147583972, 9958597187001860052, 15320005350091977939, 180317699959160188],
    [5780663385327427484, 10297839776632880574, 17967507082495608814, 2769879282045866037],
    [15235782546781028938, 12032357491681637126, 16145289486311297584, 2187312093427751447],
    [16980895921157827241, 6174250601249817367, 7160056597323061133, 2526768101745054657],
    [15232215744839381301, 8852783932308666017, 217202872842800055, 2343207276248673720],
    [7577911754728241123, 17441644548141931398, 3487460111499581435, 499087109183731258],
    [11175988146250693047, 2529292052392802744, 12956170016776401423, 1379320064097340663],
    [17457782376955745843, 6839391313470892858, 16225918042888364559, 3355813548273508935],
    [10291519874243211819, 5858453992320594716, 15418926230808856778, 3302638857538705],
    [5442335102949368264, 12614469331880209397, 9309235909116840519, 2738481315502734148],
    [8608007240073245977, 5888564880127623687, 14862208948961780554, 527383658599047765],
    [4487680833707105727, 5592101375766193125, 3579589876170908863, 2941471875664758523],
    [14035316669023563268, 4828086879756041258, 9765563927160468101, 1735544983949832231],
    [6569184174354737442, 13176823256242748016, 15189447931767505429, 806201825492421522],
    [3259354179305690830, 9076276871397890644, 3146473653394032030, 1444773273630386075],
    [2886478710045159407, 1628715579611622330, 16216154090391887018, 2096621729053454978],
    [5097369541361116041, 16522276673597798602, 14387510071356665547, 2217674474520284976],
    [10704383844230613435, 1883165267800084058, 13553629956915823935, 620351822438362297],
    [16386707849697459815, 17197075862236908315, 5360559559101197730, 2850888766107913422],
    [7895879872466244476, 11897612148816835788, 2720477890791011647, 1557724165172537199],
    [2225666905890601642, 9995206516027266886, 287390480265579145, 2631993910243445152],
    [11523824358127049488, 1134734470102924096, 13618795702764599756, 1233700508269411854],
    [4470576814709902154, 18161291680640610107, 286385760453393278, 867395680136811378],
    [1259315862594998688, 9116480613917662871, 14741059164592314452, 242806030114534449],
    [1753360292221749901, 5275628017591269977, 2903709650471345116, 212617589072758769],
    [7438105167744434947, 7582704639746391305, 5991429845823359808, 2569070662563260138],
    [2915781354158865964, 13104001237896876071, 17971332699480897107, 1010972157656519933],
    [175469971343266546, 10429584802638678258, 7087125206064719068, 430752183736384777],
    [9582907956989028300, 13487882234365314823, 7642891907811108625, 3273903686526516573],
    [4152557576435169894, 1526388561284955961, 16705746783885241302, 2391823427372880799],
    [4575168928825116650, 6292629709239964905, 12328628354823796301, 745927692889904686],
    [8109607047099671432, 6272337147882764663, 10548629457743429989, 2044591375865744793],
    [8173165631775990731, 11737432706522732675, 14049946902660851537, 1341798675158782831],
    [14019120476174267636, 11215208935417343762, 8047340430417016421, 1487821845853015406],
    [12824507385883461471, 13490877029205551184, 8793594004137491082, 1456377848217190610],
    [16884136202939890647, 13814094470836839074, 6330137220727289278, 2920006927039655167],
    [6480092164666689389, 16407080449071650421, 10566246501330813, 320140088416358717],
    [11125368731662206055, 3256781314650167737, 7537492427726722025, 614890429263355182],
    [17972927106381872067, 14999209284536743104, 7792001330985679698, 1359757369273735742],
    [14404906450189228718, 11415607189383684172, 1709323994527174222, 2253988366937057071],
];

/// The shipped additive-constant data of width 9.
pub closed spec fn c9_data() -> Seq<[u64; 4]> {
    C_T9@
}

/// The shipped mixing-matrix data of width 9, row-major.
pub closed spec fn m9_data() -> Seq<[u64; 4]> {
    M_T9@
}

/// The additive round constants of width 9, pinned to the shipped data.
pub fn c_t9() -> (v: Vec<[u64; 4]>)
    ensures
        v@ == c9_data(),
        v@.len() == 639,
{
    slice_to_vec(C_T9.as_slice())
}

/// The mixing matrix of width 9, pinned to the shipped data.
pub fn m_t9() -> (v: Vec<[u64; 4]>)
    ensures
        v@ == m9_data(),
        v@.len() == 81,
{
    slice_to_vec(M_T9.as_slice())
}

} // verus!
